use vstd::prelude::*;
use crate::models::{Pet, PetKind};

verus! {

#[verifier::external_type_specification]
#[verifier::external_body]
pub struct ExConnection(sqlite::Connection);

#[verifier::external_type_specification]
#[verifier::external_body]
pub struct ExStatement<'l>(sqlite::Statement<'l>);

#[verifier::external_type_specification]
#[verifier::external_body]
pub struct ExSqliteError(sqlite::Error);

/// The schema of the store: one table of pets.
pub const PETS_SCHEMA: &'static str =
    "CREATE TABLE IF NOT EXISTS pets (id INTEGER PRIMARY KEY AUTOINCREMENT, name TEXT NOT NULL, age INTEGER NOT NULL, kind TEXT NOT NULL)";

const GET_PET_BY_ID: &'static str = "SELECT id, name, age, kind FROM pets where id = ?";

const DELETE_PET_BY_ID: &'static str = "DELETE FROM pets where id = ?";

const INSERT_PET: &'static str =
    "INSERT INTO pets (name, age, kind) VALUES (?, ?, ?) RETURNING id, name, age, kind";

const GET_PETS: &'static str = "SELECT id, name, age, kind FROM pets";

/// Why a store operation gave no result.
#[derive(Debug)]
pub enum StoreError {
    /// The store refused a statement.
    Query(sqlite::Error),
    /// An insert returned no row.
    NotInserted,
    /// A delete removed no row: no pet has that id.
    NotFound,
}

/// Relies on sqlite::Connection::execute: runs a batch of statements.
#[verifier::external_body]
fn execute(con: &sqlite::Connection, sql: &str) -> Result<(), sqlite::Error> {
    con.execute(sql)
}

/// Relies on sqlite::Connection::prepare: compiles one statement.
#[verifier::external_body]
fn prepare<'l>(con: &'l sqlite::Connection, sql: &str) -> Result<sqlite::Statement<'l>, sqlite::Error> {
    con.prepare(sql)
}

/// Relies on sqlite::Statement::bind with an integer at a 1-based parameter index.
#[verifier::external_body]
fn bind_int(stmt: &mut sqlite::Statement, index: usize, value: i64) -> Result<(), sqlite::Error> {
    stmt.bind((index, value))
}

/// Relies on sqlite::Statement::bind with a text at a 1-based parameter index.
#[verifier::external_body]
fn bind_text(stmt: &mut sqlite::Statement, index: usize, value: &str) -> Result<(), sqlite::Error> {
    stmt.bind((index, value))
}

/// Relies on sqlite::Statement::next: `true` when a row is ready, `false` when done.
#[verifier::external_body]
fn step(stmt: &mut sqlite::Statement) -> Result<bool, sqlite::Error> {
    match stmt.next() {
        Ok(sqlite::State::Row) => Ok(true),
        Ok(sqlite::State::Done) => Ok(false),
        Err(e) => Err(e),
    }
}

/// Relies on sqlite::Statement::read of an integer from a 0-based column.
#[verifier::external_body]
fn read_int(stmt: &sqlite::Statement, column: usize) -> Result<i64, sqlite::Error> {
    stmt.read::<i64, usize>(column)
}

/// Relies on sqlite::Statement::read of a text from a 0-based column.
#[verifier::external_body]
fn read_text(stmt: &sqlite::Statement, column: usize) -> Result<String, sqlite::Error> {
    stmt.read::<String, usize>(column)
}

/// Relies on sqlite::Connection::change_count: rows changed by the last statement.
#[verifier::external_body]
fn change_count(con: &sqlite::Connection) -> usize {
    con.change_count()
}

/// Creates the pets table when it is missing.
pub fn create_schema(con: &sqlite::Connection) -> (r: Result<(), StoreError>)
    ensures
        r matches Err(e) ==> e is Query,
{
    match execute(con, PETS_SCHEMA) {
        Ok(()) => Ok(()),
        Err(e) => Err(StoreError::Query(e)),
    }
}

/// A prepared statement, with a record of its text and of the values bound
/// to it, by 1-based parameter index.
struct Query<'l> {
    stmt: sqlite::Statement<'l>,
    sql: Ghost<Seq<char>>,
    texts: Ghost<Map<int, Seq<char>>>,
    ints: Ghost<Map<int, i64>>,
}

impl<'l> Query<'l> {
    /// Prepares `sql` on `con`, with nothing bound yet.
    fn new(con: &'l sqlite::Connection, sql: &str) -> (r: Result<Query<'l>, StoreError>)
        ensures
            r matches Ok(q) ==> q.sql@ == sql@ && q.texts@ == Map::<int, Seq<char>>::empty()
                && q.ints@ == Map::<int, i64>::empty(),
            r matches Err(e) ==> e is Query,
    {
        match prepare(con, sql) {
            Ok(stmt) => Ok(Query { stmt, sql: Ghost(sql@), texts: Ghost(Map::empty()), ints: Ghost(Map::empty()) }),
            Err(e) => Err(StoreError::Query(e)),
        }
    }

    /// Binds a text at parameter `index`.
    fn bind_text(&mut self, index: usize, value: &str) -> (r: Result<(), StoreError>)
        ensures
            final(self).sql == old(self).sql,
            final(self).ints == old(self).ints,
            r is Ok ==> final(self).texts@ == old(self).texts@.insert(index as int, value@),
            r matches Err(e) ==> e is Query,
    {
        match bind_text(&mut self.stmt, index, value) {
            Ok(()) => {
                self.texts = Ghost(self.texts@.insert(index as int, value@));
                Ok(())
            },
            Err(e) => Err(StoreError::Query(e)),
        }
    }

    /// Binds an integer at parameter `index`.
    fn bind_int(&mut self, index: usize, value: i64) -> (r: Result<(), StoreError>)
        ensures
            final(self).sql == old(self).sql,
            final(self).texts == old(self).texts,
            r is Ok ==> final(self).ints@ == old(self).ints@.insert(index as int, value),
            r matches Err(e) ==> e is Query,
    {
        match bind_int(&mut self.stmt, index, value) {
            Ok(()) => {
                self.ints = Ghost(self.ints@.insert(index as int, value));
                Ok(())
            },
            Err(e) => Err(StoreError::Query(e)),
        }
    }

    /// Advances the statement: `true` when a row is ready.
    fn step(&mut self) -> (r: Result<bool, StoreError>)
        ensures
            final(self).sql == old(self).sql,
            final(self).texts == old(self).texts,
            final(self).ints == old(self).ints,
            r matches Err(e) ==> e is Query,
    {
        match step(&mut self.stmt) {
            Ok(b) => Ok(b),
            Err(e) => Err(StoreError::Query(e)),
        }
    }

    /// Reads the current row as a pet: id, name, age, kind.
    fn read_pet(&self) -> (r: Result<Pet, StoreError>)
        ensures
            r matches Err(e) ==> e is Query,
    {
        let id = match read_int(&self.stmt, 0) {
            Ok(v) => v,
            Err(e) => return Err(StoreError::Query(e)),
        };
        let name = match read_text(&self.stmt, 1) {
            Ok(v) => v,
            Err(e) => return Err(StoreError::Query(e)),
        };
        let age = match read_int(&self.stmt, 2) {
            Ok(v) => v,
            Err(e) => return Err(StoreError::Query(e)),
        };
        let kind = match read_text(&self.stmt, 3) {
            Ok(v) => v,
            Err(e) => return Err(StoreError::Query(e)),
        };
        Ok(Pet { id, name, age, kind: PetKind(kind) })
    }
}

/// The insert statement with the name, age and kind of `pet` bound.
fn prepare_insert<'l>(con: &'l sqlite::Connection, pet: &Pet) -> (r: Result<Query<'l>, StoreError>)
    ensures
        r matches Ok(q) ==> q.sql@ == INSERT_PET@ && q.texts@ == map![1int => pet.name@, 3int => pet.kind.0@]
            && q.ints@ == map![2int => pet.age],
        r matches Err(e) ==> e is Query,
{
    let mut q = Query::new(con, INSERT_PET)?;
    q.bind_text(1, pet.name.as_str())?;
    q.bind_int(2, pet.age)?;
    q.bind_text(3, pet.kind.0.as_str())?;
    assert(q.texts@ =~= map![1int => pet.name@, 3int => pet.kind.0@]);
    assert(q.ints@ =~= map![2int => pet.age]);
    Ok(q)
}

/// The statement `sql` with `id` bound as its one parameter.
fn prepare_with_id<'l>(con: &'l sqlite::Connection, sql: &str, id: i64) -> (r: Result<Query<'l>, StoreError>)
    ensures
        r matches Ok(q) ==> q.sql@ == sql@ && q.texts@ == Map::<int, Seq<char>>::empty()
            && q.ints@ == map![1int => id],
        r matches Err(e) ==> e is Query,
{
    let mut q = Query::new(con, sql)?;
    q.bind_int(1, id)?;
    assert(q.ints@ =~= map![1int => id]);
    Ok(q)
}

/// The outcome of an insert from the row its statement returned: that pet,
/// or `NotInserted` when there was none.
pub fn insert_result(row: Option<Pet>) -> (r: Result<Pet, StoreError>)
    ensures
        row matches Some(p) ==> (r matches Ok(q) && q == p),
        row is None ==> (r matches Err(e) && e is NotInserted),
{
    match row {
        Some(p) => Ok(p),
        None => Err(StoreError::NotInserted),
    }
}

/// Stores `pet` under a fresh id and returns the stored record.
pub fn insert_pet_to_db(con: &sqlite::Connection, pet: Pet) -> (r: Result<Pet, StoreError>)
    ensures
        r matches Err(e) ==> (e is Query || e is NotInserted),
{
    let mut q = prepare_insert(con, &pet)?;
    let row = if q.step()? {
        Some(q.read_pet()?)
    } else {
        None
    };
    insert_result(row)
}

/// Whether a delete removed a pet: its statement returned no row and changed
/// some.
pub open spec fn delete_done(row_returned: bool, changes: usize) -> bool {
    !row_returned && changes > 0
}

/// The outcome of a delete: done as `delete_done` says; `NotFound` otherwise.
pub fn delete_result(row_returned: bool, changes: usize) -> (r: Result<(), StoreError>)
    ensures
        (r is Ok) == delete_done(row_returned, changes),
        r matches Err(e) ==> e is NotFound,
{
    if !row_returned && changes > 0 {
        Ok(())
    } else {
        Err(StoreError::NotFound)
    }
}

/// Removes the pet with id `pet_id`; `NotFound` when there is none.
pub fn delete_pet_from_db(con: &sqlite::Connection, pet_id: i64) -> (r: Result<(), StoreError>)
    ensures
        r matches Err(e) ==> (e is Query || e is NotFound),
{
    let mut q = prepare_with_id(con, DELETE_PET_BY_ID, pet_id)?;
    let row_returned = q.step()?;
    delete_result(row_returned, change_count(con))
}

/// The outcome of a lookup of `pet_id` from the row read, if any: the pet when
/// it has that id, `None` otherwise.
pub fn lookup_result(row: Option<Pet>, pet_id: i64) -> (r: Option<Pet>)
    ensures
        r == (match row {
            Some(p) => if p.id == pet_id { Some(p) } else { None },
            None => None,
        }),
{
    match row {
        Some(p) => {
            if p.id == pet_id {
                Some(p)
            } else {
                None
            }
        },
        None => None,
    }
}

/// Reads the pet with id `pet_id`, `None` when there is none.
pub fn get_pet_from_db(con: &sqlite::Connection, pet_id: i64) -> (r: Result<Option<Pet>, StoreError>)
    ensures
        r matches Err(e) ==> e is Query,
        r matches Ok(Some(p)) ==> p.id == pet_id,
{
    let mut q = prepare_with_id(con, GET_PET_BY_ID, pet_id)?;
    let row = if q.step()? {
        Some(q.read_pet()?)
    } else {
        None
    };
    Ok(lookup_result(row, pet_id))
}

/// Where a listing stands after one answer of the store.
pub enum ListStep {
    /// A row was added; more may follow.
    More(Vec<Pet>),
    /// The statement is done: this is the whole list.
    Finished(Vec<Pet>),
}

/// One step of a listing: a row read is appended to `acc`, the end of the rows
/// finishes the list as it is, and an error ends the listing with no list.
pub fn list_step(acc: Vec<Pet>, answer: Result<Option<Pet>, StoreError>) -> (r: Result<ListStep, StoreError>)
    ensures
        answer matches Err(e) ==> (r matches Err(f) && f == e),
        answer matches Ok(None) ==> (r matches Ok(ListStep::Finished(l)) && l@ == acc@),
        answer matches Ok(Some(p)) ==> (r matches Ok(ListStep::More(l)) && l@ == acc@.push(p)),
{
    match answer {
        Ok(Some(p)) => {
            let mut l = acc;
            l.push(p);
            Ok(ListStep::More(l))
        },
        Ok(None) => Ok(ListStep::Finished(acc)),
        Err(e) => Err(e),
    }
}

/// Reads every pet, in the store's order.
pub fn get_pets_from_db(con: &sqlite::Connection) -> (r: Result<Vec<Pet>, StoreError>)
    ensures
        r matches Err(e) ==> e is Query,
{
    let mut q = Query::new(con, GET_PETS)?;
    let mut pets: Vec<Pet> = Vec::new();
    while pets.len() < usize::MAX
        decreases usize::MAX - pets@.len(),
    {
        let answer = match q.step() {
            Ok(true) => match q.read_pet() {
                Ok(p) => Ok(Some(p)),
                Err(e) => Err(e),
            },
            Ok(false) => Ok(None),
            Err(e) => Err(e),
        };
        match list_step(pets, answer)? {
            ListStep::More(l) => {
                pets = l;
            },
            ListStep::Finished(l) => {
                return Ok(l);
            },
        }
    }
    Ok(pets)
}

} // verus!
