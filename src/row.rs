use vstd::prelude::*;

use crate::incident::{Incident, IncidentModel};

verus! {

/// One value of a result row, as the storage engine typed it. A real number's
/// value is not kept: no column of a stored incident holds one.
#[derive(Debug, Clone)]
pub enum Cell {
    Null,
    Integer(i64),
    Real,
    Text(String),
    Blob(Vec<u8>),
}

/// A stored incident: the engine's id and the record's values.
#[derive(Debug, Clone)]
pub struct IncidentRow {
    pub id: i32,
    pub incident: Incident,
}

/// Why a result row does not have the shape of a stored incident.
#[derive(Debug, Clone, Copy, PartialEq, Eq, Structural)]
pub enum DecodeError {
    /// The row has no column at this position.
    MissingColumn { column: usize },
    /// The column at this position holds a value of another type.
    WrongType { column: usize },
    /// The column at this position holds an integer too wide for its field.
    OutOfRange { column: usize },
}

/// Column 1 holds the airline's name; all others hold integers.
pub open spec fn is_text_column(j: int) -> bool {
    j == 1
}

/// Smallest integer admitted in column `j`: column 2 is 64 bits wide, the others 32.
pub open spec fn column_min(j: int) -> int {
    if j == 2 {
        i64::MIN as int
    } else {
        i32::MIN as int
    }
}

/// Largest integer admitted in column `j`.
pub open spec fn column_max(j: int) -> int {
    if j == 2 {
        i64::MAX as int
    } else {
        i32::MAX as int
    }
}

/// What is wrong with column `j` of a row, if anything.
pub open spec fn column_fault(cells: Seq<Cell>, j: int) -> Option<DecodeError> {
    if j >= cells.len() {
        Some(DecodeError::MissingColumn { column: j as usize })
    } else if is_text_column(j) {
        match cells[j] {
            Cell::Text(_) => None,
            _ => Some(DecodeError::WrongType { column: j as usize }),
        }
    } else {
        match cells[j] {
            Cell::Integer(v) => if column_min(j) <= v && v <= column_max(j) {
                None
            } else {
                Some(DecodeError::OutOfRange { column: j as usize })
            },
            _ => Some(DecodeError::WrongType { column: j as usize }),
        }
    }
}

/// The first fault among columns `j` to 8, read in column order.
pub open spec fn first_column_fault(cells: Seq<Cell>, j: int) -> Option<DecodeError>
    decreases 9 - j,
{
    if j >= 9 {
        None
    } else if column_fault(cells, j) is Some {
        column_fault(cells, j)
    } else {
        first_column_fault(cells, j + 1)
    }
}

/// The integer in column `j` of a row.
pub open spec fn column_int(cells: Seq<Cell>, j: int) -> int {
    match cells[j] {
        Cell::Integer(v) => v as int,
        _ => 0,
    }
}

/// The text in column `j` of a row.
pub open spec fn column_text(cells: Seq<Cell>, j: int) -> Seq<char> {
    match cells[j] {
        Cell::Text(s) => s@,
        _ => Seq::empty(),
    }
}

/// A row decoded by position succeeds exactly where no column is at fault; it
/// then holds the id of column 0, the airline of column 1 and the counts of
/// columns 2 to 8. Columns after the ninth are not read.
pub open spec fn decodes_to(cells: Seq<Cell>, r: IncidentRow) -> bool {
    &&& first_column_fault(cells, 0) is None
    &&& r.id as int == column_int(cells, 0)
    &&& r.incident@ == IncidentModel {
        airline: column_text(cells, 1),
        counts: Seq::new(7, |i: int| column_int(cells, i + 2)),
    }
}

fn int_column(cells: &Vec<Cell>, j: usize, lo: i64, hi: i64) -> (r: Result<i64, DecodeError>)
    requires
        j < 9,
        !is_text_column(j as int),
        lo == column_min(j as int),
        hi == column_max(j as int),
    ensures
        r matches Ok(v) ==> column_fault(cells@, j as int) is None && v as int == column_int(cells@, j as int),
        r matches Err(e) ==> column_fault(cells@, j as int) == Some(e),
{
    if j >= cells.len() {
        return Err(DecodeError::MissingColumn { column: j });
    }
    match &cells[j] {
        Cell::Integer(v) => if lo <= *v && *v <= hi {
            Ok(*v)
        } else {
            Err(DecodeError::OutOfRange { column: j })
        },
        _ => Err(DecodeError::WrongType { column: j }),
    }
}

/// Decodes a result row by position into a stored incident: column 0 as a
/// 32-bit id, column 1 as text, column 2 as a 64-bit integer, columns 3 to 8
/// as 32-bit integers. The first column at fault, in column order, is reported.
pub fn decode_row(cells: &Vec<Cell>) -> (r: Result<IncidentRow, DecodeError>)
    ensures
        r matches Ok(row) ==> decodes_to(cells@, row),
        r matches Err(e) ==> first_column_fault(cells@, 0) == Some(e),
{
    proof {
        reveal_with_fuel(first_column_fault, 10);
    }
    let n_lo = i32::MIN as i64;
    let n_hi = i32::MAX as i64;
    let id = int_column(cells, 0, n_lo, n_hi)?;
    let airline = if cells.len() < 2 {
        return Err(DecodeError::MissingColumn { column: 1 });
    } else {
        match &cells[1] {
            Cell::Text(s) => s.clone(),
            _ => return Err(DecodeError::WrongType { column: 1 }),
        }
    };
    let c2 = int_column(cells, 2, i64::MIN, i64::MAX)?;
    let c3 = int_column(cells, 3, n_lo, n_hi)?;
    let c4 = int_column(cells, 4, n_lo, n_hi)?;
    let c5 = int_column(cells, 5, n_lo, n_hi)?;
    let c6 = int_column(cells, 6, n_lo, n_hi)?;
    let c7 = int_column(cells, 7, n_lo, n_hi)?;
    let c8 = int_column(cells, 8, n_lo, n_hi)?;
    let row = IncidentRow {
        id: id as i32,
        incident: Incident {
            airline,
            avail_seat_km_per_week: c2,
            incidents_85_99: c3 as i32,
            fatal_accidents_85_99: c4 as i32,
            fatalities_85_99: c5 as i32,
            incidents_00_14: c6 as i32,
            fatal_accidents_00_14: c7 as i32,
            fatalities_00_14: c8 as i32,
        },
    };
    proof {
        assert(row.incident@.counts =~= Seq::new(7, |i: int| column_int(cells@, i + 2)));
    }
    Ok(row)
}

} // verus!
