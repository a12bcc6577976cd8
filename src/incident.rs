use vstd::prelude::*;
use vstd::string::StringSliceAdditionalSpecFns;
use vstd::utf8::encode_utf8;

use crate::decimal::{decimal_within, parse_decimal};

verus! {

/// One airline's safety record: the eight values of a source record, typed.
#[derive(Debug, Clone)]
pub struct Incident {
    pub airline: String,
    pub avail_seat_km_per_week: i64,
    pub incidents_85_99: i32,
    pub fatal_accidents_85_99: i32,
    pub fatalities_85_99: i32,
    pub incidents_00_14: i32,
    pub fatal_accidents_00_14: i32,
    pub fatalities_00_14: i32,
}

/// The mathematical value of an `Incident`: the airline's name and the seven
/// counts, in column order (seat-kilometres first).
pub struct IncidentModel {
    pub airline: Seq<char>,
    pub counts: Seq<int>,
}

impl View for Incident {
    type V = IncidentModel;

    open spec fn view(&self) -> IncidentModel {
        IncidentModel {
            airline: self.airline@,
            counts: seq![
                self.avail_seat_km_per_week as int,
                self.incidents_85_99 as int,
                self.fatal_accidents_85_99 as int,
                self.fatalities_85_99 as int,
                self.incidents_00_14 as int,
                self.fatal_accidents_00_14 as int,
                self.fatalities_00_14 as int,
            ],
        }
    }
}

/// Why a source record could not be turned into an `Incident`.
#[derive(Debug, Clone, Copy, PartialEq, Eq, Structural)]
pub enum RecordError {
    /// The record has fewer than eight fields.
    MissingFields,
    /// The field at this position (1 to 7) is not an integer of its column's width.
    NotInteger { field: usize },
}

/// Number of fields that a source record must carry.
pub const FIELDS: usize = 8;

/// The text of each field of a record.
pub open spec fn fields_view(fields: Vec<String>) -> Seq<Seq<char>> {
    fields@.map_values(|s: String| s@)
}

/// The text of each field of each record.
pub open spec fn records_view(records: Vec<Vec<String>>) -> Seq<Seq<Seq<char>>> {
    records@.map_values(|r: Vec<String>| fields_view(r))
}

/// Smallest value admitted in field `k`: field 1 is 64 bits wide, the others 32.
pub open spec fn field_min(k: int) -> int {
    if k == 1 {
        i64::MIN as int
    } else {
        i32::MIN as int
    }
}

/// Largest value admitted in field `k`.
pub open spec fn field_max(k: int) -> int {
    if k == 1 {
        i64::MAX as int
    } else {
        i32::MAX as int
    }
}

/// The integer held by field `k` of a record, if it is one of the column's width.
pub open spec fn field_int(f: Seq<Seq<char>>, k: int) -> Option<int> {
    decimal_within(encode_utf8(f[k]), field_min(k), field_max(k))
}

/// The first of fields 1 to 7 that holds no integer of its column's width, or 8.
pub open spec fn first_non_integer(f: Seq<Seq<char>>) -> int {
    if field_int(f, 1) is None {
        1
    } else if field_int(f, 2) is None {
        2
    } else if field_int(f, 3) is None {
        3
    } else if field_int(f, 4) is None {
        4
    } else if field_int(f, 5) is None {
        5
    } else if field_int(f, 6) is None {
        6
    } else if field_int(f, 7) is None {
        7
    } else {
        8
    }
}

/// What a record becomes: its eight fields typed in order, or the first fault.
#[verifier::opaque]
pub open spec fn coerce_spec(f: Seq<Seq<char>>) -> Result<IncidentModel, RecordError> {
    if f.len() < 8 {
        Err(RecordError::MissingFields)
    } else if first_non_integer(f) < 8 {
        Err(RecordError::NotInteger { field: first_non_integer(f) as usize })
    } else {
        Ok(IncidentModel { airline: f[0], counts: Seq::new(7, |i: int| field_int(f, i + 1)->Some_0) })
    }
}

fn field_at(fields: &Vec<String>, k: usize, lo: i64, hi: i64) -> (r: Option<i64>)
    requires
        1 <= k < fields@.len(),
        k < 8,
        lo == field_min(k as int),
        hi == field_max(k as int),
    ensures
        r matches Some(v) ==> field_int(fields_view(*fields), k as int) == Some(v as int),
        r is None ==> field_int(fields_view(*fields), k as int) is None,
{
    let s = fields[k].as_str();
    assert(fields_view(*fields)[k as int] == s@);
    parse_decimal(s, lo, hi)
}

/// Turns one source record into an `Incident`: field 0 verbatim as the
/// airline, field 1 as a 64-bit integer, fields 2 to 7 as 32-bit integers.
/// Fields after the eighth are not read.
pub fn coerce_record(fields: &Vec<String>) -> (r: Result<Incident, RecordError>)
    ensures
        r matches Ok(inc) ==> coerce_spec(fields_view(*fields)) == Ok::<IncidentModel, RecordError>(inc@),
        r matches Err(e) ==> coerce_spec(fields_view(*fields)) == Err::<IncidentModel, RecordError>(e),
{
    let ghost f = fields_view(*fields);
    proof {
        reveal(coerce_spec);
    }
    if fields.len() < FIELDS {
        return Err(RecordError::MissingFields);
    }
    let w_lo = i64::MIN;
    let w_hi = i64::MAX;
    let n_lo = i32::MIN as i64;
    let n_hi = i32::MAX as i64;
    let c1 = match field_at(fields, 1, w_lo, w_hi) {
        Some(v) => v,
        None => return Err(RecordError::NotInteger { field: 1 }),
    };
    let c2 = match field_at(fields, 2, n_lo, n_hi) {
        Some(v) => v,
        None => return Err(RecordError::NotInteger { field: 2 }),
    };
    let c3 = match field_at(fields, 3, n_lo, n_hi) {
        Some(v) => v,
        None => return Err(RecordError::NotInteger { field: 3 }),
    };
    let c4 = match field_at(fields, 4, n_lo, n_hi) {
        Some(v) => v,
        None => return Err(RecordError::NotInteger { field: 4 }),
    };
    let c5 = match field_at(fields, 5, n_lo, n_hi) {
        Some(v) => v,
        None => return Err(RecordError::NotInteger { field: 5 }),
    };
    let c6 = match field_at(fields, 6, n_lo, n_hi) {
        Some(v) => v,
        None => return Err(RecordError::NotInteger { field: 6 }),
    };
    let c7 = match field_at(fields, 7, n_lo, n_hi) {
        Some(v) => v,
        None => return Err(RecordError::NotInteger { field: 7 }),
    };
    let inc = Incident {
        airline: fields[0].clone(),
        avail_seat_km_per_week: c1,
        incidents_85_99: c2 as i32,
        fatal_accidents_85_99: c3 as i32,
        fatalities_85_99: c4 as i32,
        incidents_00_14: c5 as i32,
        fatal_accidents_00_14: c6 as i32,
        fatalities_00_14: c7 as i32,
    };
    proof {
        assert(first_non_integer(f) == 8);
        assert(inc@.counts =~= Seq::new(7, |i: int| field_int(f, i + 1)->Some_0));
    }
    Ok(inc)
}

} // verus!
