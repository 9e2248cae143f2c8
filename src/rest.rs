use vstd::prelude::*;
use crate::store::StoreError;
use crate::student::Student;

verus! {

/// The HTTP status of a request that the store served.
pub const OK: u16 = 200;

/// The HTTP status of a request that the store did not serve.
pub const SERVICE_UNAVAILABLE: u16 = 503;

/// The status that answers a failed store call. Every failure is answered
/// alike: a missing row cannot be told from an unreachable store. Whether a
/// missing row should have a status of its own (404) is left open; this is
/// the one place that would change.
pub open spec fn failure_status(e: StoreError) -> u16 {
    match e {
        StoreError::NotFound => SERVICE_UNAVAILABLE,
        StoreError::Backend => SERVICE_UNAVAILABLE,
    }
}

/// A handler's answer to a store call that yields a value: the value with
/// status `OK`, or the failure's status.
pub open spec fn reply<T>(outcome: Result<T, StoreError>) -> Result<T, u16> {
    match outcome {
        Ok(v) => Ok(v),
        Err(e) => Err(failure_status(e)),
    }
}

/// A handler's answer to a store call whose value is not sent back.
pub open spec fn reply_status<T>(outcome: Result<T, StoreError>) -> u16 {
    match outcome {
        Ok(_) => OK,
        Err(e) => failure_status(e),
    }
}

/// The status that answers a failed store call.
pub fn error_status(e: &StoreError) -> (r: u16)
    ensures
        r == failure_status(*e),
        r == SERVICE_UNAVAILABLE,
{
    match e {
        StoreError::NotFound => SERVICE_UNAVAILABLE,
        StoreError::Backend => SERVICE_UNAVAILABLE,
    }
}

fn reply_with<T>(outcome: Result<T, StoreError>) -> (r: Result<T, u16>)
    ensures
        r == reply(outcome),
{
    match outcome {
        Ok(v) => Ok(v),
        Err(e) => Err(error_status(&e)),
    }
}

fn status_of<T>(outcome: &Result<T, StoreError>) -> (r: u16)
    ensures
        r == reply_status(*outcome),
{
    match outcome {
        Ok(_) => OK,
        Err(e) => error_status(e),
    }
}

/// `GET /students/`: the rows as the store listed them, an empty list
/// included, or `SERVICE_UNAVAILABLE`.
pub fn get_all_students(rows: Result<Vec<Student>, StoreError>) -> (r: Result<Vec<Student>, u16>)
    ensures
        r == reply(rows),
        rows is Ok ==> r is Ok && r->Ok_0@ == rows->Ok_0@,
        rows is Err ==> r == Err::<Vec<Student>, u16>(SERVICE_UNAVAILABLE),
{
    reply_with(rows)
}

/// `GET /students/:id`: the student that the store found, or
/// `SERVICE_UNAVAILABLE`, for a missing id as for any other failure.
pub fn get_student(found: Result<Student, StoreError>) -> (r: Result<Student, u16>)
    ensures
        r == reply(found),
        found is Err ==> r == Err::<Student, u16>(SERVICE_UNAVAILABLE),
{
    reply_with(found)
}

/// `POST /students/add`: the id that the store assigned, or
/// `SERVICE_UNAVAILABLE`.
pub fn add_student(new_id: Result<i32, StoreError>) -> (r: Result<i32, u16>)
    ensures
        r == reply(new_id),
        new_id is Ok ==> r == Ok::<i32, u16>(new_id->Ok_0),
        new_id is Err ==> r == Err::<i32, u16>(SERVICE_UNAVAILABLE),
{
    reply_with(new_id)
}

/// `PUT /students/edit`: `OK` whenever the statement ran, however many rows
/// it affected (none, for an id that is not there); else
/// `SERVICE_UNAVAILABLE`.
pub fn update_student(rows_affected: Result<u64, StoreError>) -> (r: u16)
    ensures
        r == reply_status(rows_affected),
        r == (if rows_affected is Ok { OK } else { SERVICE_UNAVAILABLE }),
{
    status_of(&rows_affected)
}

/// `DELETE /students/delete/:id`: `OK` whenever the statement ran, however
/// many rows it affected (none, for an id that is not there); else
/// `SERVICE_UNAVAILABLE`.
pub fn delete_student(rows_affected: Result<u64, StoreError>) -> (r: u16)
    ensures
        r == reply_status(rows_affected),
        r == (if rows_affected is Ok { OK } else { SERVICE_UNAVAILABLE }),
{
    status_of(&rows_affected)
}

/// An update or a delete that ran is answered `OK` whatever number of rows
/// it affected, none included: one for an id that is not there succeeds.
pub proof fn lemma_statement_that_ran_is_ok(rows_affected: u64)
    ensures
        reply_status(Ok::<u64, StoreError>(rows_affected)) == OK,
{
}

/// A listing that the store served is answered with exactly its rows, in the
/// order the store gave them; with no rows, an empty list and not a failure.
pub proof fn lemma_served_listing_is_kept(rows: Vec<Student>)
    ensures
        reply(Ok::<Vec<Student>, StoreError>(rows)) is Ok,
        reply(Ok::<Vec<Student>, StoreError>(rows))->Ok_0@ == rows@,
        rows@.len() == 0 ==> reply(Ok::<Vec<Student>, StoreError>(rows))->Ok_0@.len() == 0,
{
}

} // verus!
