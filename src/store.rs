use vstd::prelude::*;
use vstd::string::StringSliceAdditionalSpecFns;

use crate::incident::{records_view, Incident, IncidentModel};
use crate::ingest::{plan_load, planned_fault, planned_rows, RecordFault};
use rusqlite::types::Value;

use crate::name::{is_valid_table_name, valid_table_name};
use crate::row::{IncidentRow, decode_row, decodes_to, first_column_fault, Cell, DecodeError};

verus! {

#[verifier::external_type_specification]
#[verifier::external_body]
pub struct ExConnection(rusqlite::Connection);

#[verifier::external_type_specification]
#[verifier::external_body]
pub struct ExSqlError(rusqlite::Error);

#[verifier::external_type_specification]
#[verifier::external_body]
pub struct ExValue(rusqlite::types::Value);

#[verifier::external_type_specification]
#[verifier::external_body]
pub struct ExCsvError(csv::Error);

/// Why a table could not be created or dropped.
#[derive(Debug)]
pub enum TableError {
    /// The table name is not of the form `[A-Za-z_][A-Za-z0-9_]*`; no
    /// statement was built from it.
    InvalidName,
    /// The storage engine refused the statement.
    Storage(rusqlite::Error),
}

/// Why a load stopped.
#[derive(Debug)]
pub enum LoadError {
    /// The table name is not of the form `[A-Za-z_][A-Za-z0-9_]*`; nothing was
    /// read or inserted.
    InvalidName,
    /// The delimited-text reader failed after reading `records_read` records.
    Csv { records_read: usize, cause: csv::Error },
    /// A record could not be typed.
    Record(RecordFault),
    /// The engine refused to insert record `record` (counted from 1).
    Storage { record: usize, source: rusqlite::Error },
}

/// Where a query's result does not have the shape of stored incidents.
#[derive(Debug, Clone, Copy, PartialEq, Eq, Structural)]
pub struct RowFault {
    /// Position of the row in the result, counted from 1.
    pub row: usize,
    pub error: DecodeError,
}

/// The rows of a result decoded before the first one that is not a stored
/// incident, and that row's fault.
#[derive(Debug)]
pub struct DecodeFailure {
    pub decoded: Vec<IncidentRow>,
    pub fault: RowFault,
}

/// Why a query failed.
#[derive(Debug)]
pub enum QueryError {
    /// The engine refused or could not run the query.
    Storage(rusqlite::Error),
    /// A row of the result is not a stored incident.
    Decode(DecodeFailure),
}

/// The one connection to the storage engine, with a record of what this
/// library handed to it: the text of each statement run or query made, and
/// each insert of an incident that the engine accepted (its statement and
/// values), in order.
pub struct Database {
    pub conn: rusqlite::Connection,
    pub statements: Ghost<Seq<Seq<char>>>,
    pub inserted: Ghost<Seq<(Seq<char>, IncidentModel)>>,
}

impl Database {
    /// Takes over an open connection; nothing has been handed to it yet.
    pub fn new(conn: rusqlite::Connection) -> (r: Database)
        ensures
            r.statements@ == Seq::<Seq<char>>::empty(),
            r.inserted@ == Seq::<(Seq<char>, IncidentModel)>::empty(),
    {
        Database { conn, statements: Ghost(Seq::empty()), inserted: Ghost(Seq::empty()) }
    }
}

/// The record of inserts of `rows`, in order, each by statement `sql`.
pub open spec fn inserts_of(sql: Seq<char>, rows: Seq<IncidentModel>) -> Seq<(Seq<char>, IncidentModel)> {
    rows.map_values(|m: IncidentModel| (sql, m))
}

/// What the delimited-text reader makes of a source: the records that it
/// reads in order, and whether it then stopped on an error.
pub uninterp spec fn csv_scan_of(data: Seq<u8>) -> (Seq<Seq<Seq<char>>>, bool);

/// Relies on csv::ReaderBuilder (no header record) and Reader::records: each
/// record read becomes its fields' text; reading stops at the first error.
/// The outcome depends on the bytes alone.
#[verifier::external_body]
fn scan_csv(data: &Vec<u8>) -> (r: (Vec<Vec<String>>, Option<csv::Error>))
    ensures
        (records_view(r.0), r.1 is Some) == csv_scan_of(data@),
{
    let mut rdr = csv::ReaderBuilder::new().has_headers(false).from_reader(data.as_slice());
    let mut out: Vec<Vec<String>> = Vec::new();
    for rec in rdr.records() {
        match rec {
            Ok(r) => out.push(r.iter().map(String::from).collect()),
            Err(e) => return (out, Some(e)),
        }
    }
    (out, None)
}

/// Relies on rusqlite::Connection::execute, with no parameters: runs one
/// statement. Whether the engine accepts it depends on the database; the
/// statement is recorded as handed over either way.
#[verifier::external_body]
fn run_statement(db: &mut Database, sql: &str) -> (r: Result<usize, rusqlite::Error>)
    ensures
        final(db).statements@ == old(db).statements@.push(sql@),
        final(db).inserted@ == old(db).inserted@,
{
    db.conn.execute(sql, [])
}

/// Relies on rusqlite::Connection::execute, with the eight values of an
/// incident bound in order to the statement's eight parameters. The insert is
/// recorded where the engine accepted it.
#[verifier::external_body]
fn insert_incident(db: &mut Database, sql: &str, inc: &Incident) -> (r: Result<
    usize,
    rusqlite::Error,
>)
    ensures
        final(db).statements@ == old(db).statements@,
        r is Ok ==> final(db).inserted@ == old(db).inserted@.push((sql@, inc@)),
        r is Err ==> final(db).inserted@ == old(db).inserted@,
{
    db.conn.execute(
        sql,
        (
            inc.airline.as_str(),
            inc.avail_seat_km_per_week,
            inc.incidents_85_99,
            inc.fatal_accidents_85_99,
            inc.fatalities_85_99,
            inc.incidents_00_14,
            inc.fatal_accidents_00_14,
            inc.fatalities_00_14,
        ),
    )
}

/// Relies on rusqlite's Connection::prepare, Statement::query, Rows::next and
/// Row::get as a Value: every value of every row of the query's result, in
/// the engine's order. What comes back depends on the database; the query is
/// recorded as handed over either way.
#[verifier::external_body]
fn fetch_values(db: &mut Database, sql: &str) -> (r: Result<Vec<Vec<Value>>, rusqlite::Error>)
    ensures
        final(db).statements@ == old(db).statements@.push(sql@),
        final(db).inserted@ == old(db).inserted@,
{
    let mut stmt = db.conn.prepare(sql)?;
    let n = stmt.column_count();
    let mut rows = stmt.query([])?;
    let mut out: Vec<Vec<Value>> = Vec::new();
    while let Some(row) = rows.next()? {
        out.push((0..n).map(|j| row.get(j)).collect::<Result<Vec<Value>, _>>()?);
    }
    Ok(out)
}

/// Relies on the variants of rusqlite::types::Value: each becomes the cell of
/// the same kind, with its payload (a real number's aside).
#[verifier::external_body]
fn cell_of(v: &Value) -> (r: Cell) {
    match v {
        Value::Null => Cell::Null,
        Value::Integer(i) => Cell::Integer(*i),
        Value::Real(_) => Cell::Real,
        Value::Text(t) => Cell::Text(t.clone()),
        Value::Blob(b) => Cell::Blob(b.clone()),
    }
}

/// Opening of the statement that creates an incident table.
pub const CREATE_HEAD: &'static str = "CREATE TABLE IF NOT EXISTS ";

/// The incident table's columns: an engine-assigned id, then the record's eight values.
pub const CREATE_TAIL: &'static str = " (
            id INTEGER PRIMARY KEY,
            airline TEXT NOT NULL,
            avail_seat_km_per_week INTEGER NOT NULL,
            incidents_85_99 INTEGER NOT NULL,
            fatal_accidents_85_99 INTEGER NOT NULL,
            fatalities_85_99 INTEGER NOT NULL,
            incidents_00_14 INTEGER NOT NULL,
            fatal_accidents_00_14 INTEGER NOT NULL,
            fatalities_00_14 INTEGER NOT NULL
        )";

/// Opening of the statement that drops a table.
pub const DROP_HEAD: &'static str = "DROP TABLE IF EXISTS ";

/// Opening of the statement that inserts one incident.
pub const INSERT_HEAD: &'static str = "INSERT INTO ";

/// The columns an insert fills, and one parameter for each.
pub const INSERT_TAIL: &'static str = " (airline, avail_seat_km_per_week, incidents_85_99, fatal_accidents_85_99, fatalities_85_99, incidents_00_14, fatal_accidents_00_14, fatalities_00_14) VALUES (?, ?, ?, ?, ?, ?, ?, ?)";

/// The text of a statement that names `table` between a fixed opening and ending.
pub open spec fn statement_text(head: &str, table: Seq<char>, tail: &str) -> Seq<char> {
    head@ + table + tail@
}

fn statement(head: &str, table_name: &str, tail: &str) -> (r: String)
    ensures
        r@ == statement_text(head, table_name@, tail),
{
    String::from_str(head).concat(table_name).concat(tail)
}

/// The statement that creates table `table_name` with the incident columns,
/// unless a table of that name exists.
pub fn create_table_sql(table_name: &str) -> (r: String)
    ensures
        r@ == statement_text(CREATE_HEAD, table_name@, CREATE_TAIL),
{
    statement(CREATE_HEAD, table_name, CREATE_TAIL)
}

/// The statement that drops table `table_name`, if it exists.
pub fn drop_table_sql(table_name: &str) -> (r: String)
    ensures
        r@ == statement_text(DROP_HEAD, table_name@, ""),
{
    statement(DROP_HEAD, table_name, "")
}

/// The statement that inserts one incident into table `table_name`, its
/// values bound as parameters.
pub fn insert_sql(table_name: &str) -> (r: String)
    ensures
        r@ == statement_text(INSERT_HEAD, table_name@, INSERT_TAIL),
{
    statement(INSERT_HEAD, table_name, INSERT_TAIL)
}

/// Creates the incident table `table_name` unless it exists. A name that is
/// not of the form `[A-Za-z_][A-Za-z0-9_]*` is refused before any statement is
/// built; otherwise the engine decides.
pub fn create_table(db: &mut Database, table_name: &str) -> (r: Result<(), TableError>)
    ensures
        !valid_table_name(table_name.spec_bytes()) <==> r matches Err(TableError::InvalidName),
        !valid_table_name(table_name.spec_bytes()) ==> final(db).statements@ == old(
            db,
        ).statements@,
        valid_table_name(table_name.spec_bytes()) ==> final(db).statements@ == old(
            db,
        ).statements@.push(statement_text(CREATE_HEAD, table_name@, CREATE_TAIL)),
        final(db).inserted@ == old(db).inserted@,
{
    if !is_valid_table_name(table_name) {
        return Err(TableError::InvalidName);
    }
    let sql = create_table_sql(table_name);
    match run_statement(db, sql.as_str()) {
        Ok(_) => Ok(()),
        Err(e) => Err(TableError::Storage(e)),
    }
}

/// Drops table `table_name` if it exists. A name that is not of the form
/// `[A-Za-z_][A-Za-z0-9_]*` is refused before any statement is built;
/// otherwise the engine decides.
pub fn drop_table(db: &mut Database, table_name: &str) -> (r: Result<(), TableError>)
    ensures
        !valid_table_name(table_name.spec_bytes()) <==> r matches Err(TableError::InvalidName),
        !valid_table_name(table_name.spec_bytes()) ==> final(db).statements@ == old(
            db,
        ).statements@,
        valid_table_name(table_name.spec_bytes()) ==> final(db).statements@ == old(
            db,
        ).statements@.push(statement_text(DROP_HEAD, table_name@, "")),
        final(db).inserted@ == old(db).inserted@,
{
    if !is_valid_table_name(table_name) {
        return Err(TableError::InvalidName);
    }
    let sql = drop_table_sql(table_name);
    match run_statement(db, sql.as_str()) {
        Ok(_) => Ok(()),
        Err(e) => Err(TableError::Storage(e)),
    }
}

/// Inserts records into table `table_name` one by one, in order, each
/// committed on its own. It stops at the first record that cannot be typed,
/// after inserting those before it, or at the first insert the engine
/// refuses; rows already inserted stay. On success, the number of rows
/// inserted. A table name that is not of the form `[A-Za-z_][A-Za-z0-9_]*` is
/// refused before any statement is built.
pub fn load_records(db: &mut Database, table_name: &str, records: &Vec<Vec<String>>) -> (r:
    Result<usize, LoadError>)
    ensures
        final(db).statements@ == old(db).statements@,
        r matches Err(LoadError::InvalidName) ==> final(db).inserted@ == old(db).inserted@,
        (r is Ok || r matches Err(LoadError::Record(_))) ==> final(db).inserted@ == old(
            db,
        ).inserted@ + inserts_of(
            statement_text(INSERT_HEAD, table_name@, INSERT_TAIL),
            planned_rows(records_view(*records)),
        ),
        r matches Err(LoadError::Storage { record, .. }) ==> final(db).inserted@ == old(
            db,
        ).inserted@ + inserts_of(
            statement_text(INSERT_HEAD, table_name@, INSERT_TAIL),
            planned_rows(records_view(*records)).take(record - 1),
        ),
        !valid_table_name(table_name.spec_bytes()) <==> r matches Err(LoadError::InvalidName),
        r matches Ok(n) ==> planned_fault(records_view(*records)) is None && n == records@.len(),
        r matches Err(LoadError::Record(f)) ==> planned_fault(records_view(*records)) == Some(f),
        r matches Err(LoadError::Storage { record, .. }) ==> 1 <= record <= planned_rows(
            records_view(*records),
        ).len(),
        !(r matches Err(LoadError::Csv { .. })),
        planned_fault(records_view(*records)) is Some ==> r is Err,
{
    if !is_valid_table_name(table_name) {
        return Err(LoadError::InvalidName);
    }
    let sql = insert_sql(table_name);
    let (rows, fault) = plan_load(records);
    proof {
        assert(rows@.map_values(|inc: Incident| inc@).len() == rows@.len());
        if fault is None {
            crate::ingest::lemma_plan_covers_all(records_view(*records));
        }
    }
    let ghost plan = planned_rows(records_view(*records));
    let ghost sql_text = sql@;
    let mut i: usize = 0;
    while i < rows.len()
        invariant
            i <= rows@.len(),
            rows@.len() == plan.len(),
            rows@.map_values(|inc: Incident| inc@) == plan,
            plan == planned_rows(records_view(*records)),
            sql@ == sql_text,
            sql_text == statement_text(INSERT_HEAD, table_name@, INSERT_TAIL),
            valid_table_name(table_name.spec_bytes()),
            db.statements@ == old(db).statements@,
            db.inserted@ == old(db).inserted@ + inserts_of(sql_text, plan.take(i as int)),
        decreases rows@.len() - i,
    {
        let ghost before = db.inserted@;
        match insert_incident(db, sql.as_str(), &rows[i]) {
            Ok(_) => {
                proof {
                    assert(plan[i as int] == rows@[i as int]@);
                    assert(plan.take(i + 1) =~= plan.take(i as int).push(plan[i as int]));
                    assert(inserts_of(sql_text, plan.take(i + 1)) =~= inserts_of(
                        sql_text,
                        plan.take(i as int),
                    ).push((sql_text, plan[i as int])));
                    assert(db.inserted@ =~= old(db).inserted@ + inserts_of(
                        sql_text,
                        plan.take(i + 1),
                    ));
                }
            },
            Err(e) => {
                return Err(LoadError::Storage { record: i + 1, source: e });
            },
        }
        i = i + 1;
    }
    proof {
        assert(plan.take(i as int) =~= plan);
    }
    match fault {
        Some(f) => Err(LoadError::Record(f)),
        None => Ok(rows.len()),
    }
}

/// Loads the delimited text `data` into table `table_name`: the records that
/// the reader yields, in order, with no header record, each inserted as
/// `load_records` does. Where the reader fails after the records before it were
/// all inserted, the load fails with the number of records read. A table name
/// that is not of the form `[A-Za-z_][A-Za-z0-9_]*` is refused before the
/// source is read.
pub fn load_data_from_csv(db: &mut Database, table_name: &str, data: &Vec<u8>) -> (r:
    Result<usize, LoadError>)
    ensures
        final(db).statements@ == old(db).statements@,
        !valid_table_name(table_name.spec_bytes()) <==> r matches Err(LoadError::InvalidName),
        !valid_table_name(table_name.spec_bytes()) ==> final(db).inserted@ == old(db).inserted@,
        valid_table_name(table_name.spec_bytes()) ==> ({
            let (recs, failed) = csv_scan_of(data@);
            let sql = statement_text(INSERT_HEAD, table_name@, INSERT_TAIL);
            &&& !(r matches Err(LoadError::Storage { .. })) ==> final(db).inserted@ == old(
                db,
            ).inserted@ + inserts_of(sql, planned_rows(recs))
            &&& r matches Err(LoadError::Storage { record, .. }) ==> final(db).inserted@ == old(
                db,
            ).inserted@ + inserts_of(sql, planned_rows(recs).take(record - 1))
            &&& r matches Ok(n) ==> !failed && planned_fault(recs) is None && n == recs.len()
            &&& r matches Err(LoadError::Csv { records_read, .. }) ==> failed && planned_fault(recs)
                is None && records_read == recs.len()
            &&& r matches Err(LoadError::Record(f)) ==> planned_fault(recs) == Some(f)
            &&& r matches Err(LoadError::Storage { record, .. }) ==> 1 <= record <= planned_rows(
                recs,
            ).len()
            &&& (failed || planned_fault(recs) is Some) ==> r is Err
        }),
{
    if !is_valid_table_name(table_name) {
        return Err(LoadError::InvalidName);
    }
    let (records, failure) = scan_csv(data);
    let loaded = load_records(db, table_name, &records);
    match (loaded, failure) {
        (Ok(n), Some(e)) => Err(LoadError::Csv { records_read: n, cause: e }),
        (res, _) => res,
    }
}

/// Every row of a query's result decodes: exactly where no column of any row
/// is at fault.
pub open spec fn rows_decode_to(rows: Seq<Vec<Cell>>, out: Seq<IncidentRow>) -> bool {
    &&& out.len() == rows.len()
    &&& forall|i: int| 0 <= i < rows.len() ==> decodes_to(#[trigger] rows[i]@, out[i])
}

/// The first row of `rows` that is not a stored incident is row `f.row`
/// (counted from 1), with first fault `f.error`; `decoded` holds the rows before
/// it, decoded.
pub open spec fn fails_at(rows: Seq<Vec<Cell>>, decoded: Seq<IncidentRow>, f: RowFault) -> bool {
    &&& 1 <= f.row <= rows.len()
    &&& first_column_fault(rows[f.row - 1]@, 0) == Some(f.error)
    &&& decoded.len() == f.row - 1
    &&& forall|i: int| 0 <= i < f.row - 1 ==> decodes_to(#[trigger] rows[i]@, decoded[i])
}

/// Decodes every row of a query's result, in order, or reports the first row
/// (counted from 1) that is not a stored incident, with its first fault and
/// the rows before it.
pub fn decode_rows(rows: &Vec<Vec<Cell>>) -> (r: Result<Vec<IncidentRow>, DecodeFailure>)
    ensures
        r matches Ok(out) ==> rows_decode_to(rows@, out@),
        r matches Err(d) ==> fails_at(rows@, d.decoded@, d.fault),
{
    let mut out: Vec<IncidentRow> = Vec::new();
    let mut i: usize = 0;
    while i < rows.len()
        invariant
            i <= rows@.len(),
            out@.len() == i,
            forall|j: int| 0 <= j < i ==> decodes_to(#[trigger] rows@[j]@, out@[j]),
        decreases rows@.len() - i,
    {
        match decode_row(&rows[i]) {
            Ok(row) => out.push(row),
            Err(e) => {
                return Err(DecodeFailure { decoded: out, fault: RowFault { row: i + 1, error: e } });
            },
        }
        i = i + 1;
    }
    Ok(out)
}

fn cells_of(values: &Vec<Vec<Value>>) -> (r: Vec<Vec<Cell>>)
    ensures
        r@.len() == values@.len(),
{
    let mut out: Vec<Vec<Cell>> = Vec::new();
    let mut i: usize = 0;
    while i < values.len()
        invariant
            i <= values@.len(),
            out@.len() == i,
        decreases values@.len() - i,
    {
        let row = &values[i];
        let mut cells: Vec<Cell> = Vec::new();
        let mut j: usize = 0;
        while j < row.len()
            invariant
                j <= row@.len(),
            decreases row@.len() - j,
        {
            cells.push(cell_of(&row[j]));
            j = j + 1;
        }
        out.push(cells);
        i = i + 1;
    }
    out
}

/// Runs `query_string` as it is and decodes each row of its result, in the
/// engine's order, as a stored incident. Fails where the engine refuses the
/// query, or where a row does not have the incident's nine-column shape; in
/// the second case with the first such row and its first fault.
pub fn query_exec(db: &mut Database, query_string: &str) -> (r: Result<
    Vec<IncidentRow>,
    QueryError,
>)
    ensures
        final(db).statements@ == old(db).statements@.push(query_string@),
        final(db).inserted@ == old(db).inserted@,
        r matches Ok(out) ==> exists|rows: Seq<Vec<Cell>>| #[trigger] rows_decode_to(rows, out@),
        r matches Err(QueryError::Decode(d)) ==> exists|rows: Seq<Vec<Cell>>| #[trigger]
            fails_at(rows, d.decoded@, d.fault),
{
    let values = match fetch_values(db, query_string) {
        Ok(v) => v,
        Err(e) => return Err(QueryError::Storage(e)),
    };
    let cells = cells_of(&values);
    match decode_rows(&cells) {
        Ok(out) => {
            let r = Ok(out);
            assert(r matches Ok(o) && rows_decode_to(cells@, o@));
            r
        },
        Err(d) => {
            let r = Err(QueryError::Decode(d));
            assert(r matches Err(QueryError::Decode(d)) && fails_at(cells@, d.decoded@, d.fault));
            r
        },
    }
}

} // verus!
