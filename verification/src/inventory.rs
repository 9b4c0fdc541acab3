//! The container inventory of one scrape: the engine's listing, reduced to
//! the containers that the label scheme can address and keyed by their id.

use vstd::prelude::*;
use crate::state::ContainerState;

verus! {

/// One record of the engine's container listing. The engine may leave any
/// field out.
#[derive(Clone, Debug, Default, PartialEq, Eq)]
pub struct ContainerRecord {
    /// The id of the container; an empty id counts as none.
    pub id: Option<String>,
    /// The names of the container; the first one is its display name.
    pub names: Option<Vec<String>>,
    /// The pod the container belongs to; an empty name means none.
    pub pod_name: Option<String>,
    pub state: Option<String>,
}

/// A listing record as contracts see it.
pub struct RecordView {
    pub id: Option<Seq<char>>,
    pub names: Option<Seq<Seq<char>>>,
    pub pod_name: Option<Seq<char>>,
    pub state: Option<Seq<char>>,
}

impl DeepView for ContainerRecord {
    type V = RecordView;

    open spec fn deep_view(&self) -> RecordView {
        RecordView {
            id: self.id.deep_view(),
            names: self.names.deep_view(),
            pod_name: self.pod_name.deep_view(),
            state: self.state.deep_view(),
        }
    }
}

/// What the inventory holds of one container.
#[derive(Clone, Debug, PartialEq, Eq)]
pub struct InventoryEntry {
    pub id: String,
    /// The pod of the container, never empty; `None` for a container
    /// outside any pod.
    pub pod: Option<String>,
    pub name: String,
    pub state: ContainerState,
}

/// An inventory entry as contracts see it.
pub struct EntryView {
    pub id: Seq<char>,
    pub pod: Option<Seq<char>>,
    pub name: Seq<char>,
    pub state: ContainerState,
}

impl DeepView for InventoryEntry {
    type V = EntryView;

    open spec fn deep_view(&self) -> EntryView {
        EntryView { id: self.id@, pod: self.pod.deep_view(), name: self.name@, state: self.state }
    }
}

/// The pod a record names, where an empty name counts as no pod.
pub open spec fn pod_of(pod_name: Option<Seq<char>>) -> Option<Seq<char>> {
    match pod_name {
        Some(pod) => if pod.len() > 0 {
            Some(pod)
        } else {
            None
        },
        None => None,
    }
}

impl RecordView {
    /// A record can be addressed when it carries an id that is not empty
    /// and at least one name. Only such records enter the inventory.
    pub open spec fn addressable(self) -> bool {
        &&& self.id matches Some(id) && id.len() > 0
        &&& self.names matches Some(names) && names.len() > 0
    }

    /// The inventory entry of an addressable record.
    pub open spec fn entry(self) -> EntryView
        recommends
            self.addressable(),
    {
        EntryView {
            id: self.id->0,
            pod: pod_of(self.pod_name),
            name: self.names->0[0],
            state: ContainerState::of(self.state),
        }
    }
}

impl EntryView {
    /// The entry has an id, and its pod, where it names one, has a name.
    pub open spec fn admissible(self) -> bool {
        &&& self.id.len() > 0
        &&& self.pod matches Some(pod) ==> pod.len() > 0
    }

    /// The value of the `pod` label: the pod's name, or the empty string
    /// for a container outside any pod.
    pub open spec fn pod_label(self) -> Seq<char> {
        match self.pod {
            Some(pod) => pod,
            None => Seq::empty(),
        }
    }
}

/// The ids of the entries, in their order.
pub open spec fn ids(entries: Seq<EntryView>) -> Seq<Seq<char>> {
    entries.map_values(|entry: EntryView| entry.id)
}

/// Where the entry with the given id stands, if there is one.
pub open spec fn position(entries: Seq<EntryView>, id: Seq<char>) -> Option<int> {
    ids(entries).index_of_first(id)
}

/// The entry with the given id, if there is one.
pub open spec fn lookup(entries: Seq<EntryView>, id: Seq<char>) -> Option<EntryView> {
    match position(entries, id) {
        Some(index) => Some(entries[index]),
        None => None,
    }
}

/// The entries after one more is put in: it takes the place of the entry
/// with its id, or goes to the end where the id is new.
pub open spec fn upsert(entries: Seq<EntryView>, entry: EntryView) -> Seq<EntryView> {
    match position(entries, entry.id) {
        Some(index) => entries.update(index, entry),
        None => entries.push(entry),
    }
}

/// The entries after one more record of the listing was read.
pub open spec fn enroll(entries: Seq<EntryView>, record: RecordView) -> Seq<EntryView> {
    if record.addressable() {
        upsert(entries, record.entry())
    } else {
        entries
    }
}

/// The inventory that a listing amounts to: its addressable records in the
/// order their ids first occur, the last record of an id deciding what is
/// known of it.
pub open spec fn inventory_of(records: Seq<RecordView>) -> Seq<EntryView>
    decreases records.len(),
{
    if records.len() == 0 {
        Seq::empty()
    } else {
        enroll(inventory_of(records.drop_last()), records.last())
    }
}

/// No id occurs twice, no id is empty, and no entry names an empty pod.
pub open spec fn well_formed(entries: Seq<EntryView>) -> bool {
    &&& forall|i: int, j: int|
        0 <= i < j < entries.len() ==> (#[trigger] entries[i]).id != (#[trigger] entries[j]).id
    &&& forall|i: int| 0 <= i < entries.len() ==> (#[trigger] entries[i]).admissible()
}

/// `position` finds the one place where an id stands.
pub proof fn lemma_position(entries: Seq<EntryView>, id: Seq<char>)
    ensures
        match position(entries, id) {
            Some(index) => {
                &&& 0 <= index < entries.len()
                &&& entries[index].id == id
                &&& forall|j: int| 0 <= j < index ==> (#[trigger] entries[j]).id != id
            },
            None => forall|j: int| 0 <= j < entries.len() ==> (#[trigger] entries[j]).id != id,
        },
{
    let all = ids(entries);
    all.index_of_first_ensures(id);
    match all.index_of_first(id) {
        Some(index) => {
            assert forall|j: int| 0 <= j < index implies (#[trigger] entries[j]).id != id by {
                assert(all[j] != id);
            }
        },
        None => {
            assert forall|j: int| 0 <= j < entries.len() implies (#[trigger] entries[j]).id
                != id by {
                assert(all[j] == entries[j].id);
            }
        },
    }
}

/// Whatever stands at a place before which the id does not occur is what
/// `position` finds.
pub proof fn lemma_position_is(entries: Seq<EntryView>, id: Seq<char>, index: int)
    requires
        0 <= index < entries.len(),
        entries[index].id == id,
        forall|j: int| 0 <= j < index ==> (#[trigger] entries[j]).id != id,
    ensures
        position(entries, id) == Some(index),
{
    lemma_position(entries, id);
}

/// Putting an entry in keeps an inventory well formed.
pub proof fn lemma_upsert_well_formed(entries: Seq<EntryView>, entry: EntryView)
    requires
        well_formed(entries),
        entry.admissible(),
    ensures
        well_formed(upsert(entries, entry)),
{
    lemma_position(entries, entry.id);
}

/// Every inventory built from a listing is well formed: the id is a key.
pub proof fn lemma_inventory_well_formed(records: Seq<RecordView>)
    ensures
        well_formed(inventory_of(records)),
    decreases records.len(),
{
    if records.len() > 0 {
        lemma_inventory_well_formed(records.drop_last());
        if records.last().addressable() {
            lemma_upsert_well_formed(inventory_of(records.drop_last()), records.last().entry());
        }
    }
}

/// The place of the entry with the given id.
fn find(entries: &Vec<InventoryEntry>, id: &String) -> (found: Option<usize>)
    ensures
        match found {
            Some(index) => position(entries.deep_view(), id@) == Some(index as int),
            None => position(entries.deep_view(), id@) is None,
        },
{
    let mut index: usize = 0;
    while index < entries.len()
        invariant
            index <= entries.len(),
            forall|j: int| 0 <= j < index ==> (#[trigger] entries.deep_view()[j]).id != id@,
        decreases entries.len() - index,
    {
        if entries[index].id == *id {
            proof {
                lemma_position_is(entries.deep_view(), id@, index as int);
            }
            return Some(index);
        }
        index += 1;
    }
    proof {
        lemma_position(entries.deep_view(), id@);
    }
    None
}

/// Reads one record: its entry where it is addressable, nothing where not.
fn read_record(record: &ContainerRecord) -> (entry: Option<InventoryEntry>)
    ensures
        match entry {
            Some(entry) => record.deep_view().addressable() && entry.deep_view()
                == record.deep_view().entry(),
            None => !record.deep_view().addressable(),
        },
{
    let id = match &record.id {
        Some(id) => {
            if id.as_str().is_empty() {
                return None;
            }
            id.clone()
        },
        None => {
            return None;
        },
    };
    let name = match &record.names {
        Some(names) => {
            if names.len() == 0 {
                return None;
            }
            names[0].clone()
        },
        None => {
            return None;
        },
    };
    let pod = match &record.pod_name {
        Some(pod) => if pod.as_str().is_empty() {
            None
        } else {
            Some(pod.clone())
        },
        None => None,
    };
    let state = ContainerState::from_raw(&record.state);
    Some(InventoryEntry { id, pod, name, state })
}

/// Puts an entry in: in the place of the entry with its id, or at the end.
fn put(entries: &mut Vec<InventoryEntry>, entry: InventoryEntry)
    ensures
        final(entries).deep_view() == upsert(old(entries).deep_view(), entry.deep_view()),
{
    proof {
        lemma_position(entries.deep_view(), entry.id@);
    }
    match find(entries, &entry.id) {
        Some(index) => {
            entries.set(index, entry);
        },
        None => {
            entries.push(entry);
        },
    }
}

/// The containers of one scrape, keyed by id and kept in the order their
/// ids first came.
pub struct Inventory {
    entries: Vec<InventoryEntry>,
}

impl View for Inventory {
    type V = Seq<EntryView>;

    closed spec fn view(&self) -> Seq<EntryView> {
        self.entries.deep_view()
    }
}

impl Inventory {
    #[verifier::type_invariant]
    spec fn keyed_by_id(self) -> bool {
        well_formed(self.entries.deep_view())
    }

    /// Builds the inventory of a listing. Records without an id or without
    /// a name are left out, silently; of two records with one id the later
    /// one stays.
    pub fn collect(records: &Vec<ContainerRecord>) -> (inventory: Inventory)
        ensures
            inventory@ == inventory_of(records.deep_view()),
    {
        let mut entries: Vec<InventoryEntry> = Vec::new();
        let mut index: usize = 0;
        while index < records.len()
            invariant
                index <= records.len(),
                entries.deep_view() == inventory_of(records.deep_view().take(index as int)),
            decreases records.len() - index,
        {
            proof {
                let seen = records.deep_view().take(index as int + 1);
                assert(seen.drop_last() =~= records.deep_view().take(index as int));
            }
            match read_record(&records[index]) {
                Some(entry) => {
                    put(&mut entries, entry);
                },
                None => {},
            }
            index += 1;
        }
        proof {
            assert(records.deep_view().take(index as int) =~= records.deep_view());
            lemma_inventory_well_formed(records.deep_view());
        }
        Inventory { entries }
    }

    /// The number of containers.
    pub fn len(&self) -> (len: usize)
        ensures
            len == self@.len(),
    {
        self.entries.len()
    }

    /// The entry of the container with the given id.
    pub fn get(&self, id: &String) -> (entry: Option<&InventoryEntry>)
        ensures
            entry.deep_view() == lookup(self@, id@),
    {
        proof {
            lemma_position(self@, id@);
        }
        match find(&self.entries, id) {
            Some(index) => Some(&self.entries[index]),
            None => None,
        }
    }

    /// The entries, in the order their ids first came. No id occurs
    /// twice among them, and neither an id nor a pod is empty.
    pub fn entries(&self) -> (entries: &Vec<InventoryEntry>)
        ensures
            entries.deep_view() == self@,
            well_formed(self@),
    {
        proof {
            use_type_invariant(self);
        }
        &self.entries
    }
}

} // verus!
