use vstd::prelude::*;

use crate::incident::{
    coerce_record, coerce_spec, fields_view, records_view, Incident, IncidentModel, RecordError,
};

verus! {

/// The first source record that cannot be loaded, with its position
/// (counted from 1) and the reason.
#[derive(Debug, Clone, Copy, PartialEq, Eq, Structural)]
pub struct RecordFault {
    pub record: usize,
    pub error: RecordError,
}

/// Index (from 0) of the first record from `i` on that does not coerce, or
/// the number of records.
pub open spec fn first_bad_record(recs: Seq<Seq<Seq<char>>>, i: int) -> int
    decreases recs.len() - i,
{
    if i >= recs.len() {
        recs.len() as int
    } else if coerce_spec(recs[i]) is Err {
        i
    } else {
        first_bad_record(recs, i + 1)
    }
}

/// The rows that a load writes, in file order: every record before the first
/// one that does not coerce, typed.
pub open spec fn planned_rows(recs: Seq<Seq<Seq<char>>>) -> Seq<IncidentModel> {
    Seq::new(first_bad_record(recs, 0) as nat, |i: int| coerce_spec(recs[i])->Ok_0)
}

/// Where a load stops short of the end of its records, and why.
pub open spec fn planned_fault(recs: Seq<Seq<Seq<char>>>) -> Option<RecordFault> {
    let k = first_bad_record(recs, 0);
    if k < recs.len() {
        Some(RecordFault { record: (k + 1) as usize, error: coerce_spec(recs[k])->Err_0 })
    } else {
        None
    }
}

proof fn lemma_first_bad_record_bounds(recs: Seq<Seq<Seq<char>>>, i: int)
    requires
        0 <= i <= recs.len(),
    ensures
        i <= first_bad_record(recs, i) <= recs.len(),
        first_bad_record(recs, i) < recs.len() ==> coerce_spec(recs[first_bad_record(recs, i)]) is Err,
        forall|j: int| i <= j < first_bad_record(recs, i) ==> coerce_spec(#[trigger] recs[j]) is Ok,
    decreases recs.len() - i,
{
    if i < recs.len() && coerce_spec(recs[i]) is Ok {
        lemma_first_bad_record_bounds(recs, i + 1);
    }
}

/// Types the records of a source, in order, up to the first one that cannot be
/// typed: the rows to insert, and the fault that ends the load early, if any.
pub fn plan_load(records: &Vec<Vec<String>>) -> (r: (Vec<Incident>, Option<RecordFault>))
    ensures
        r.0@.map_values(|inc: Incident| inc@) == planned_rows(records_view(*records)),
        r.1 == planned_fault(records_view(*records)),
{
    let ghost recs = records_view(*records);
    let mut rows: Vec<Incident> = Vec::new();
    let mut i: usize = 0;
    while i < records.len()
        invariant
            recs == records_view(*records),
            i <= records@.len(),
            rows@.len() == i,
            forall|j: int| 0 <= j < i ==> coerce_spec(#[trigger] recs[j]) == Ok::<IncidentModel, RecordError>(rows@[j]@),
            first_bad_record(recs, 0) == first_bad_record(recs, i as int),
        decreases records@.len() - i,
    {
        assert(recs[i as int] == fields_view(records@[i as int]));
        match coerce_record(&records[i]) {
            Ok(inc) => {
                rows.push(inc);
                i = i + 1;
            },
            Err(e) => {
                proof {
                    assert(first_bad_record(recs, i as int) == i);
                    assert(rows@.map_values(|inc: Incident| inc@) =~= planned_rows(recs));
                }
                return (rows, Some(RecordFault { record: i + 1, error: e }));
            },
        }
    }
    proof {
        assert(first_bad_record(recs, i as int) == i);
        assert(rows@.map_values(|inc: Incident| inc@) =~= planned_rows(recs));
    }
    (rows, None)
}

pub(crate) proof fn lemma_plan_covers_all(recs: Seq<Seq<Seq<char>>>)
    requires
        planned_fault(recs) is None,
    ensures
        planned_rows(recs).len() == recs.len(),
{
    lemma_first_bad_record_bounds(recs, 0);
}

/// Where every record of a source is well formed, a load writes exactly one
/// row per record, in file order, each holding its record's values typed.
pub proof fn lemma_load_keeps_every_record(recs: Seq<Seq<Seq<char>>>)
    requires
        forall|i: int| 0 <= i < recs.len() ==> coerce_spec(#[trigger] recs[i]) is Ok,
    ensures
        planned_rows(recs).len() == recs.len(),
        forall|i: int|
            0 <= i < recs.len() ==> coerce_spec(#[trigger] recs[i]) == Ok::<IncidentModel, RecordError>(
                planned_rows(recs)[i],
            ),
        planned_fault(recs) is None,
{
    lemma_first_bad_record_bounds(recs, 0);
    if first_bad_record(recs, 0) < recs.len() {
        assert(coerce_spec(recs[first_bad_record(recs, 0)]) is Err);
    }
}

/// Where record `k` (counted from 1) is the first that cannot be typed, a load
/// writes records 1 to `k - 1`, reports record `k`, and goes no further.
pub proof fn lemma_load_stops_at_first_bad_record(recs: Seq<Seq<Seq<char>>>, k: int)
    requires
        1 <= k <= recs.len(),
        forall|i: int| 0 <= i < k - 1 ==> coerce_spec(#[trigger] recs[i]) is Ok,
        coerce_spec(recs[k - 1]) is Err,
    ensures
        planned_rows(recs).len() == k - 1,
        forall|i: int|
            0 <= i < k - 1 ==> coerce_spec(#[trigger] recs[i]) == Ok::<IncidentModel, RecordError>(
                planned_rows(recs)[i],
            ),
        planned_fault(recs) == Some(
            RecordFault { record: k as usize, error: coerce_spec(recs[k - 1])->Err_0 },
        ),
{
    lemma_first_bad_record_bounds(recs, 0);
    let b = first_bad_record(recs, 0);
    if b < k - 1 {
        assert(coerce_spec(recs[b]) is Ok);
    }
    if b > k - 1 {
        assert(coerce_spec(recs[k - 1]) is Ok);
    }
}

} // verus!
