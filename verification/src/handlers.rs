//! The handlers, one per route.
//!
//! A handler is a pair of functions around one call to the storage. The
//! first, named `..._statement`, turns the request into the statement to run.
//! The second, named after the handler, turns what the storage gave back into
//! the response: `Ok` is sent with status 200 and the value as the body, `Err`
//! is sent as the bare status with no body ([`status_of`] gives the status in
//! both cases). A handler runs its statement once and never a second one.
//!
//! Two statuses stand for failure. The handlers that address one post by its
//! id (`get_post`, `update_post`, `delete_post`) answer every failure with
//! [`Status::NotFound`], whether the row is missing or the storage is down.
//! The others (`get_posts`, `create_post`, `create_user`) answer every failure
//! with [`Status::InternalServerError`], a rejected foreign key included.
//! None of them looks at what the error was.

use vstd::prelude::*;
use vstd::string::StringExecFns;
use crate::entity::{CreatePost, CreateUser, Message, Post, PostSummary, UpdatePost, User};
use crate::statement::{Statement, StatementView};
use crate::status::Status;
use crate::storage::StorageError;

verus! {

/// What `GET /` answers.
pub const GREETING: &'static str = "Hello, world!";

/// The sentence that confirms a delete.
pub const DELETED: &'static str = "Post deleted successfully";

/// The response to a storage outcome: a result is passed on as it is, and any
/// error becomes `failure`, whatever the error was.
pub open spec fn respond<T>(outcome: Result<T, StorageError>, failure: Status) -> Result<
    T,
    Status,
> {
    match outcome {
        Ok(value) => Ok(value),
        Err(_) => Err(failure),
    }
}

/// The response of `delete_post` to a storage outcome: the confirmation
/// whenever the statement ran, for any number of rows removed, zero included.
pub open spec fn respond_deleted(outcome: Result<nat, StorageError>) -> Result<Seq<char>, Status> {
    match outcome {
        Ok(_) => Ok(DELETED@),
        Err(_) => Err(Status::NotFound),
    }
}

/// A response with its body, if it has one, as the body's view.
pub open spec fn viewed<T: View>(response: Result<T, Status>) -> Result<T::V, Status> {
    match response {
        Ok(body) => Ok(body@),
        Err(status) => Err(status),
    }
}

/// A count of rows as a natural number.
pub open spec fn rows_view(executed: Result<u64, StorageError>) -> Result<nat, StorageError> {
    match executed {
        Ok(rows) => Ok(rows as nat),
        Err(error) => Err(error),
    }
}

/// The status a response is sent with: 200 with a body, else the status
/// that stands in place of one.
pub open spec fn spec_status_of<T>(response: Result<T, Status>) -> Status {
    match response {
        Ok(_) => Status::Success,
        Err(status) => status,
    }
}

/// The status to send `response` with. Every success is a plain 200, a
/// creation too.
pub fn status_of<T>(response: &Result<T, Status>) -> (status: Status)
    ensures
        status == spec_status_of(*response),
{
    match response {
        Ok(_) => Status::Success,
        Err(status) => *status,
    }
}

/// `GET /`: a fixed greeting, to show that the service is up.
pub fn root() -> (text: &'static str)
    ensures
        text@ == GREETING@,
{
    GREETING
}

/// `GET /posts` asks for every post.
pub fn get_posts_statement() -> (statement: Statement)
    ensures
        statement@ == StatementView::SelectPosts,
{
    Statement::SelectPosts
}

/// `GET /posts` answers with the rows in the order the storage gave them,
/// or with 500.
pub fn get_posts(listed: Result<Vec<PostSummary>, StorageError>) -> (response: Result<
    Vec<PostSummary>,
    Status,
>)
    ensures
        response == respond(listed, Status::InternalServerError),
{
    match listed {
        Ok(posts) => Ok(posts),
        Err(_) => Err(Status::InternalServerError),
    }
}

/// `GET /posts/:id` asks for the post with the id in the path.
pub fn get_post_statement(id: i32) -> (statement: Statement)
    ensures
        statement@ == (StatementView::SelectPost { id: id as int }),
{
    Statement::SelectPost { id }
}

/// `GET /posts/:id` answers with the row, or with 404.
pub fn get_post(fetched: Result<Post, StorageError>) -> (response: Result<Post, Status>)
    ensures
        response == respond(fetched, Status::NotFound),
{
    match fetched {
        Ok(post) => Ok(post),
        Err(_) => Err(Status::NotFound),
    }
}

/// `POST /posts` inserts the three submitted values and leaves the id to the
/// storage.
pub fn create_post_statement(new_post: CreatePost) -> (statement: Statement)
    ensures
        statement@ == StatementView::insert_post(new_post@),
{
    Statement::InsertPost {
        user_id: new_post.user_id,
        title: new_post.title,
        body: new_post.body,
    }
}

/// `POST /posts` answers with the row as stored, or with 500.
pub fn create_post(inserted: Result<Post, StorageError>) -> (response: Result<Post, Status>)
    ensures
        response == respond(inserted, Status::InternalServerError),
{
    match inserted {
        Ok(post) => Ok(post),
        Err(_) => Err(Status::InternalServerError),
    }
}

/// `PUT /posts/:id` overwrites all three columns of the post with the id in
/// the path.
pub fn update_post_statement(id: i32, updated_post: UpdatePost) -> (statement: Statement)
    ensures
        statement@ == StatementView::update_post(id as int, updated_post@),
{
    Statement::UpdatePost {
        title: updated_post.title,
        body: updated_post.body,
        user_id: updated_post.user_id,
        id,
    }
}

/// `PUT /posts/:id` answers with the row as it now is, or with 404.
pub fn update_post(updated: Result<Post, StorageError>) -> (response: Result<Post, Status>)
    ensures
        response == respond(updated, Status::NotFound),
{
    match updated {
        Ok(post) => Ok(post),
        Err(_) => Err(Status::NotFound),
    }
}

/// `DELETE /posts/:id` removes the post with the id in the path.
pub fn delete_post_statement(id: i32) -> (statement: Statement)
    ensures
        statement@ == (StatementView::DeletePost { id: id as int }),
{
    Statement::DeletePost { id }
}

/// `DELETE /posts/:id` confirms whenever the statement ran, without looking
/// at the number of rows it removed; only a failure of the statement itself
/// gives 404.
pub fn delete_post(executed: Result<u64, StorageError>) -> (response: Result<Message, Status>)
    ensures
        viewed(response) == respond_deleted(rows_view(executed)),
{
    match executed {
        Ok(_) => Ok(Message { message: String::from_str(DELETED) }),
        Err(_) => Err(Status::NotFound),
    }
}

/// `POST /users` inserts the two submitted values and leaves the id to the
/// storage.
pub fn create_user_statement(new_user: CreateUser) -> (statement: Statement)
    ensures
        statement@ == StatementView::insert_user(new_user@),
{
    Statement::InsertUser { username: new_user.username, email: new_user.email }
}

/// `POST /users` answers with the row as stored, or with 500.
pub fn create_user(inserted: Result<User, StorageError>) -> (response: Result<User, Status>)
    ensures
        response == respond(inserted, Status::InternalServerError),
{
    match inserted {
        Ok(user) => Ok(user),
        Err(_) => Err(Status::InternalServerError),
    }
}

} // verus!
