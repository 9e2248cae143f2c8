use vstd::prelude::*;
use crate::student::Student;

verus! {

/// Creates the `students` table when it is not there yet. The store assigns
/// `id` on insert and declares no other constraint.
pub const SCHEMA_SQL: &'static str =
    "CREATE TABLE IF NOT EXISTS students (id INTEGER PRIMARY KEY AUTOINCREMENT, first_name TEXT, last_name TEXT)";

/// Every row, ordered by first name, then last name.
pub const ALL_STUDENTS_SQL: &'static str = "SELECT * FROM students order by first_name, last_name";

/// The row whose id is the one parameter.
pub const STUDENT_SQL: &'static str = "SELECT * FROM students WHERE id=$1";

/// A new row from a first and a last name; the store answers with its id.
pub const ADD_STUDENT_SQL: &'static str =
    "INSERT INTO students (first_name, last_name) VALUES ($1, $2) RETURNING id";

/// Replaces both names of the row with the given id; affects no row when
/// there is none.
pub const UPDATE_STUDENT_SQL: &'static str = "UPDATE students SET first_name=$1, last_name=$2 WHERE id=$3";

/// Removes the row with the given id; affects no row when there is none.
pub const DELETE_STUDENT_SQL: &'static str = "DELETE FROM students WHERE id=$1";

/// Why a call to the store failed.
#[derive(Debug, Clone, Copy, PartialEq, Eq, Structural)]
pub enum StoreError {
    /// The statement ran, but no row matched where one was required.
    NotFound,
    /// The store could not be reached, or rejected the statement.
    Backend,
}

/// A value bound to a placeholder of a statement.
#[derive(Debug)]
pub enum Param {
    Int(i32),
    Text(String),
}

/// The mathematical value of a `Param`.
pub enum ParamView {
    Int(int),
    Text(Seq<char>),
}

impl View for Param {
    type V = ParamView;

    open spec fn view(&self) -> ParamView {
        match self {
            Param::Int(n) => ParamView::Int(*n as int),
            Param::Text(s) => ParamView::Text(s@),
        }
    }
}

/// A statement of the data-access layer with the values for its
/// placeholders, bound in order: the first to `$1`, the next to `$2`, ...
#[derive(Debug)]
pub struct Query {
    pub sql: &'static str,
    pub params: Vec<Param>,
}

impl View for Query {
    type V = (Seq<char>, Seq<ParamView>);

    open spec fn view(&self) -> (Seq<char>, Seq<ParamView>) {
        (self.sql@, self.params@.map_values(|p: Param| p@))
    }
}

/// Lists every student.
pub fn all_students_query() -> (q: Query)
    ensures
        q@ == (ALL_STUDENTS_SQL@, Seq::<ParamView>::empty()),
{
    let q = Query { sql: ALL_STUDENTS_SQL, params: Vec::new() };
    assert(q@.1 =~= Seq::<ParamView>::empty());
    q
}

/// Fetches the student with the given id.
pub fn student_query(id: i32) -> (q: Query)
    ensures
        q@ == (STUDENT_SQL@, seq![ParamView::Int(id as int)]),
{
    let mut params: Vec<Param> = Vec::new();
    params.push(Param::Int(id));
    let q = Query { sql: STUDENT_SQL, params };
    assert(q@.1 =~= seq![ParamView::Int(id as int)]);
    q
}

/// Inserts a student with the given names. No id is bound: the store
/// assigns a new one.
pub fn add_student_query(first_name: &str, last_name: &str) -> (q: Query)
    ensures
        q@ == (ADD_STUDENT_SQL@, seq![ParamView::Text(first_name@), ParamView::Text(last_name@)]),
{
    let mut params: Vec<Param> = Vec::new();
    params.push(Param::Text(first_name.to_owned()));
    params.push(Param::Text(last_name.to_owned()));
    let q = Query { sql: ADD_STUDENT_SQL, params };
    assert(q@.1 =~= seq![ParamView::Text(first_name@), ParamView::Text(last_name@)]);
    q
}

/// Replaces the names of the row whose id is `student.id`.
pub fn update_student_query(student: &Student) -> (q: Query)
    ensures
        q@ == (
            UPDATE_STUDENT_SQL@,
            seq![
                ParamView::Text(student.first_name@),
                ParamView::Text(student.last_name@),
                ParamView::Int(student.id as int),
            ],
        ),
{
    let mut params: Vec<Param> = Vec::new();
    params.push(Param::Text(student.first_name.clone()));
    params.push(Param::Text(student.last_name.clone()));
    params.push(Param::Int(student.id));
    let q = Query { sql: UPDATE_STUDENT_SQL, params };
    assert(q@.1 =~= seq![
        ParamView::Text(student.first_name@),
        ParamView::Text(student.last_name@),
        ParamView::Int(student.id as int),
    ]);
    q
}

/// Removes the student with the given id.
pub fn delete_student_query(id: i32) -> (q: Query)
    ensures
        q@ == (DELETE_STUDENT_SQL@, seq![ParamView::Int(id as int)]),
{
    let mut params: Vec<Param> = Vec::new();
    params.push(Param::Int(id));
    let q = Query { sql: DELETE_STUDENT_SQL, params };
    assert(q@.1 =~= seq![ParamView::Int(id as int)]);
    q
}

/// Creates the table; run once when the service starts.
pub fn schema_query() -> (q: Query)
    ensures
        q@ == (SCHEMA_SQL@, Seq::<ParamView>::empty()),
{
    let q = Query { sql: SCHEMA_SQL, params: Vec::new() };
    assert(q@.1 =~= Seq::<ParamView>::empty());
    q
}

} // verus!
