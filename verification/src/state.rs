//! The coarse lifecycle state of a container and its numeric gauge code.

use vstd::prelude::*;

verus! {

/// Lifecycle state of a container, as far as the inventory tells it.
#[derive(Clone, Copy, Debug, PartialEq, Eq, Hash, Structural)]
pub enum ContainerState {
    Unknown,
    Stopped,
    Running,
    Created,
}

impl ContainerState {
    /// The state that a raw state string of the engine stands for. A record
    /// without a state, or with a string the table does not list, is
    /// `Unknown`.
    pub open spec fn of(raw: Option<Seq<char>>) -> ContainerState {
        if raw == Some("running"@) {
            ContainerState::Running
        } else if raw == Some("created"@) {
            ContainerState::Created
        } else if raw == Some("stopped"@) || raw == Some("exited"@) {
            ContainerState::Stopped
        } else {
            ContainerState::Unknown
        }
    }

    /// The number exported for a state: -1 unknown, 0 stopped, 1 running,
    /// 2 created.
    pub open spec fn spec_code(self) -> int {
        match self {
            ContainerState::Unknown => -1,
            ContainerState::Stopped => 0,
            ContainerState::Running => 1,
            ContainerState::Created => 2,
        }
    }

    /// Reads the engine's raw state string.
    pub fn from_raw(raw: &Option<String>) -> (state: ContainerState)
        ensures
            state == ContainerState::of(raw.deep_view()),
    {
        match raw {
            Some(text) => {
                if *text == "running".to_owned() {
                    ContainerState::Running
                } else if *text == "created".to_owned() {
                    ContainerState::Created
                } else if *text == "stopped".to_owned() || *text == "exited".to_owned() {
                    ContainerState::Stopped
                } else {
                    ContainerState::Unknown
                }
            },
            None => ContainerState::Unknown,
        }
    }

    /// The gauge code of the state.
    pub fn code(self) -> (code: i64)
        ensures
            code == self.spec_code(),
    {
        match self {
            ContainerState::Unknown => -1,
            ContainerState::Stopped => 0,
            ContainerState::Running => 1,
            ContainerState::Created => 2,
        }
    }
}

/// The state table read backwards: each code is exported for exactly the
/// raw strings that the table lists for it, and -1 for every other string
/// and for a missing one.
pub proof fn lemma_state_code_table(raw: Option<Seq<char>>)
    ensures
        ContainerState::of(raw).spec_code() == 1 <==> raw == Some("running"@),
        ContainerState::of(raw).spec_code() == 2 <==> raw == Some("created"@),
        ContainerState::of(raw).spec_code() == 0 <==> (raw == Some("stopped"@) || raw == Some(
            "exited"@,
        )),
        ContainerState::of(raw).spec_code() == -1 <==> !(raw == Some("running"@) || raw == Some(
            "created"@,
        ) || raw == Some("stopped"@) || raw == Some("exited"@)),
{
    reveal_strlit("running");
    reveal_strlit("created");
    reveal_strlit("stopped");
    reveal_strlit("exited");
    assert("running"@[0] == 'r' && "created"@[0] == 'c' && "stopped"@[0] == 's');
}

} // verus!
