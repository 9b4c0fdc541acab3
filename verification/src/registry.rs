//! A model of the gauge registry that the writes of a scrape go to: a map
//! from series to the value last written. A write creates its series or
//! overwrites it; nothing ever removes one.

use vstd::prelude::*;
use crate::metrics::{Metric, WriteView};
use crate::value::Reading;

verus! {

/// One labelled series of a gauge.
pub struct Series {
    pub metric: Metric,
    pub labels: Seq<Seq<char>>,
}

/// The series that a write goes to.
pub open spec fn series_of(write: WriteView) -> Series {
    Series { metric: write.metric, labels: write.labels }
}

/// The registry after the writes were made in order.
pub open spec fn apply(cells: Map<Series, Reading>, writes: Seq<WriteView>) -> Map<
    Series,
    Reading,
>
    decreases writes.len(),
{
    if writes.len() == 0 {
        cells
    } else {
        apply(cells, writes.drop_last()).insert(series_of(writes.last()), writes.last().value)
    }
}

/// The value that the writes leave in a series: that of the last write to
/// it, if there is one.
pub open spec fn last_written(writes: Seq<WriteView>, series: Series) -> Option<Reading>
    decreases writes.len(),
{
    if writes.len() == 0 {
        None
    } else if series_of(writes.last()) == series {
        Some(writes.last().value)
    } else {
        last_written(writes.drop_last(), series)
    }
}

/// A series is written exactly when some write goes to it.
pub proof fn lemma_last_written(writes: Seq<WriteView>, series: Series)
    ensures
        last_written(writes, series) is Some <==> exists|i: int|
            0 <= i < writes.len() && series_of(#[trigger] writes[i]) == series,
    decreases writes.len(),
{
    if writes.len() > 0 {
        let rest = writes.drop_last();
        lemma_last_written(rest, series);
        if series_of(writes.last()) == series {
            assert(series_of(writes[writes.len() - 1]) == series);
        } else {
            if last_written(rest, series) is Some {
                let i = choose|i: int|
                    0 <= i < rest.len() && series_of(#[trigger] rest[i]) == series;
                assert(series_of(writes[i]) == series);
            }
            if exists|i: int| 0 <= i < writes.len() && series_of(#[trigger] writes[i]) == series {
                let i = choose|i: int|
                    0 <= i < writes.len() && series_of(#[trigger] writes[i]) == series;
                assert(series_of(rest[i]) == series);
            }
        }
    }
}

/// Writes overwrite by series: after them a series holds what was last
/// written to it, and a series that no write went to holds what it held
/// before. No series is lost.
pub proof fn lemma_apply_overwrites(
    cells: Map<Series, Reading>,
    writes: Seq<WriteView>,
    series: Series,
)
    ensures
        apply(cells, writes).dom().contains(series) <==> (cells.dom().contains(series)
            || last_written(writes, series) is Some),
        last_written(writes, series) matches Some(value) ==> apply(cells, writes)[series] == value,
        last_written(writes, series) is None ==> apply(cells, writes)[series] == cells[series],
    decreases writes.len(),
{
    if writes.len() > 0 {
        lemma_apply_overwrites(cells, writes.drop_last(), series);
    }
}

/// Making the same writes a second time changes nothing: values are set,
/// never added up.
pub proof fn lemma_apply_idempotent(cells: Map<Series, Reading>, writes: Seq<WriteView>)
    ensures
        apply(apply(cells, writes), writes) == apply(cells, writes),
{
    let once = apply(cells, writes);
    let twice = apply(once, writes);
    assert forall|series: Series| #[trigger]
        twice.dom().contains(series) == once.dom().contains(series) && (once.dom().contains(
            series,
        ) ==> twice[series] == once[series]) by {
        lemma_apply_overwrites(cells, writes, series);
        lemma_apply_overwrites(once, writes, series);
    }
    assert(twice =~= once);
}

/// A series that was written in an earlier scrape and is not written in
/// this one stays in the registry with its old value.
pub proof fn lemma_stale_series_persist(
    cells: Map<Series, Reading>,
    writes: Seq<WriteView>,
    series: Series,
)
    requires
        cells.dom().contains(series),
        forall|i: int| 0 <= i < writes.len() ==> series_of(#[trigger] writes[i]) != series,
    ensures
        apply(cells, writes).dom().contains(series),
        apply(cells, writes)[series] == cells[series],
{
    lemma_last_written(writes, series);
    lemma_apply_overwrites(cells, writes, series);
}

} // verus!
