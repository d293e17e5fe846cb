//! Student records: the messages that ask the store for work on them, and the replies that
//! the store's answers turn into.

use crate::decimal::{decimal, push_decimal, push_decimal_nat};
use crate::reply::{Reply, Status};
use vstd::prelude::*;
use vstd::string::*;

verus! {

/// A student as a client describes one: every field but the identifier, which only the
/// store assigns.
#[derive(Debug)]
pub struct NewStudent {
    pub first_name: String,
    pub last_name: String,
}

/// A student as the store holds one.
#[derive(Debug)]
pub struct Student {
    pub id: i32,
    pub first_name: String,
    pub last_name: String,
}

/// Asks the store to create a student with these fields and to assign its identifier.
#[derive(Debug)]
pub struct CreateRequest {
    pub student: NewStudent,
}

/// Asks the store for every student.
#[derive(Clone, Copy, Debug, PartialEq, Eq, Structural)]
pub struct ReadRequest {}

/// Asks the store to replace the fields of the student with this identifier.
#[derive(Debug)]
pub struct UpdateRequest {
    pub id: i32,
    pub student: NewStudent,
}

/// Asks the store to delete the student with this identifier.
#[derive(Clone, Copy, Debug, PartialEq, Eq, Structural)]
pub struct DeleteRequest {
    pub id: i32,
}

/// The body of the reply to a deletion.
#[derive(Debug)]
pub struct DeleteResponse {
    pub message: String,
}

/// The status that an update is answered with, whatever the number of rows the store
/// changed.
pub open spec fn update_status(updated_rows: nat) -> Status {
    Status::Success
}

/// The status that a deletion is answered with, given how many rows the store deleted.
pub open spec fn delete_status(deleted_rows: nat) -> Status {
    if deleted_rows > 0 {
        Status::Success
    } else {
        Status::BadRequest
    }
}

/// The message that a deletion is answered with: it names the student where rows went, and
/// the number of rows where none did.
pub open spec fn delete_message(id: int, deleted_rows: nat) -> Seq<char> {
    if deleted_rows > 0 {
        "Deleted student with id: "@ + decimal(id) + "."@
    } else {
        "Something went wrong! I only know I deleted "@ + decimal(deleted_rows as int)
            + " rows though."@
    }
}

/// The message to send to the store for `POST /students`: the fields as the client gave
/// them, with no identifier.
pub fn create_request(student: NewStudent) -> (message: CreateRequest)
    ensures
        message.student == student,
{
    CreateRequest { student }
}

/// The reply to `POST /students`, once the store has created the student: 200 with the
/// record as the store holds it, identifier included.
pub fn create(created: Student) -> (reply: Reply<Student>)
    ensures
        reply.status == Status::Success,
        reply.body == created,
{
    Reply { status: Status::Success, body: created }
}

/// The message to send to the store for `GET /students`.
pub fn read_request() -> (message: ReadRequest)
    ensures
        message == (ReadRequest {  }),
{
    ReadRequest {  }
}

/// The reply to `GET /students`, once the store has listed its students: 200 with the
/// list as the store gave it, in the store's order.
pub fn read(students: Vec<Student>) -> (reply: Reply<Vec<Student>>)
    ensures
        reply.status == Status::Success,
        reply.body == students,
{
    Reply { status: Status::Success, body: students }
}

/// The message to send to the store for `PUT /students/{id}`.
pub fn update_request(id: i32, student: NewStudent) -> (message: UpdateRequest)
    ensures
        message.id == id,
        message.student == student,
{
    UpdateRequest { id, student }
}

/// The reply to `PUT /students/{id}`, once the store has said how many rows it changed:
/// 200 with that number, also where it is 0. An update that finds no student changes
/// nothing and is no error.
pub fn update(updated_rows: usize) -> (reply: Reply<usize>)
    ensures
        reply.status == update_status(updated_rows as nat),
        reply.body == updated_rows,
{
    Reply { status: Status::Success, body: updated_rows }
}

/// The message to send to the store for `DELETE /students/{id}`.
pub fn delete_request(id: i32) -> (message: DeleteRequest)
    ensures
        message.id == id,
{
    DeleteRequest { id }
}

/// The reply to `DELETE /students/{id}`, once the store has said how many rows it deleted:
/// 200 where it deleted any, 400 where it deleted none.
pub fn delete(id: i32, deleted_rows: usize) -> (reply: Reply<DeleteResponse>)
    ensures
        reply.status == delete_status(deleted_rows as nat),
        reply.body.message@ == delete_message(id as int, deleted_rows as nat),
{
    let mut message = String::new();
    if deleted_rows > 0 {
        message.append("Deleted student with id: ");
        push_decimal(&mut message, id as i64);
        message.append(".");
        Reply { status: Status::Success, body: DeleteResponse { message } }
    } else {
        message.append("Something went wrong! I only know I deleted ");
        push_decimal_nat(&mut message, deleted_rows as u64);
        message.append(" rows though.");
        Reply { status: Status::BadRequest, body: DeleteResponse { message } }
    }
}

/// Whether `text` holds the decimal notation of `id` somewhere in it.
pub open spec fn names_student(text: Seq<char>, id: int) -> bool {
    exists|at: int|
        0 <= at && at + decimal(id).len() <= text.len() && #[trigger] text.subrange(
            at,
            at + decimal(id).len(),
        ) == decimal(id)
}

/// A deletion that removed a row is answered in the success range, with a message that
/// names the student. A deletion that removed none is answered in the client-error range.
pub proof fn deletion_reply_tells_outcome(id: int, deleted_rows: nat)
    ensures
        deleted_rows > 0 ==> delete_status(deleted_rows).succeeded() && names_student(
            delete_message(id, deleted_rows),
            id,
        ),
        deleted_rows == 0 ==> 400 <= delete_status(deleted_rows).code_of() < 500,
{
    if deleted_rows > 0 {
        let before = "Deleted student with id: "@;
        let text = delete_message(id, deleted_rows);
        let at = before.len() as int;
        assert(text.subrange(at, at + decimal(id).len()) =~= decimal(id));
    }
}

/// Where the store found no row for the identifier, an update is still answered in the
/// success range, and a deletion is not: the two differ on purpose.
pub proof fn no_row_splits_update_from_deletion()
    ensures
        update_status(0).succeeded(),
        !delete_status(0).succeeded(),
{
}

} // verus!
