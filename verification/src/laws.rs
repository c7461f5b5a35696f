//! What a client of the service can rely on, end to end.
//!
//! Each law follows a request through its handler and the storage: the
//! statement is the one the handler's `..._statement` function builds, the
//! storage answers as [`Database::executes`] allows, and the response is the
//! one the handler makes of that answer. The laws hold of every storage that
//! behaves as the model does.

use vstd::prelude::*;
use crate::entity::{CreatePostView, PostSummaryView, PostView, UpdatePostView};
use crate::handlers::{respond, respond_deleted, DELETED};
use crate::statement::StatementView;
use crate::status::Status;
use crate::storage::{
    history_keeps_issued_ids,
    is_history,
    tables_before,
    Answer,
    Database,
    Step,
    StorageError,
};

verus! {

/// A created post is answered with exactly the submitted title, body and
/// author, under an id that no insert has handed out before.
pub proof fn created_post_holds_what_was_submitted(
    db: Database,
    new_post: CreatePostView,
    inserted: Result<PostView, StorageError>,
    after: Database,
)
    requires
        db.executes(StatementView::insert_post(new_post), Answer::Post(inserted), after),
    ensures
        respond(inserted, Status::InternalServerError) matches Ok(post) ==> {
            &&& post.title == new_post.title
            &&& post.body == new_post.body
            &&& post.user_id == new_post.user_id
            &&& !db.issued_post_ids.contains(post.id)
            &&& after.issued_post_ids.contains(post.id)
        },
{
}

/// No two creates are ever answered with the same id, whatever else the
/// storage ran in between, deletes included.
pub proof fn created_ids_never_repeat(
    start: Database,
    steps: Seq<Step>,
    earlier: int,
    later: int,
    first: PostView,
    second: PostView,
)
    requires
        is_history(start, steps),
        0 <= earlier < later < steps.len(),
        steps[earlier].statement is InsertPost,
        steps[earlier].answer matches Answer::Post(inserted) && respond(
            inserted,
            Status::InternalServerError,
        ) == Ok::<PostView, Status>(first),
        steps[later].statement is InsertPost,
        steps[later].answer matches Answer::Post(inserted) && respond(
            inserted,
            Status::InternalServerError,
        ) == Ok::<PostView, Status>(second),
    ensures
        first.id != second.id,
{
    let step = steps[earlier];
    assert(tables_before(start, steps, earlier).executes(step.statement, step.answer, step.after));
    assert(tables_before(start, steps, earlier + 1).issued_post_ids.contains(first.id));
    history_keeps_issued_ids(start, steps, first.id, earlier + 1, later);
    let step = steps[later];
    assert(tables_before(start, steps, later).executes(step.statement, step.answer, step.after));
}

/// A post fetched right after its creation, by the id the creation returned,
/// is the post that the creation returned.
///
/// The fetch is taken to be answered: a storage that fails at that moment
/// gives 404 like any other failure.
pub proof fn created_post_can_be_fetched(
    db: Database,
    new_post: CreatePostView,
    inserted: Result<PostView, StorageError>,
    stored: Database,
    fetched: Result<PostView, StorageError>,
    after: Database,
)
    requires
        db.executes(StatementView::insert_post(new_post), Answer::Post(inserted), stored),
        respond(inserted, Status::InternalServerError) is Ok,
        stored.executes(
            StatementView::SelectPost { id: inserted->Ok_0.id },
            Answer::Post(fetched),
            after,
        ),
        fetched != Err::<PostView, StorageError>(StorageError::Failed),
    ensures
        respond(fetched, Status::NotFound) == respond(inserted, Status::InternalServerError),
        fetched->Ok_0.title == new_post.title,
        fetched->Ok_0.body == new_post.body,
        fetched->Ok_0.user_id == new_post.user_id,
{
}

/// A listing taken right after a creation shows the created post once, with
/// its id, title and body and without its author.
pub proof fn created_post_is_listed(
    db: Database,
    new_post: CreatePostView,
    inserted: Result<PostView, StorageError>,
    stored: Database,
    listed: Result<Seq<PostSummaryView>, StorageError>,
    after: Database,
)
    requires
        db.executes(StatementView::insert_post(new_post), Answer::Post(inserted), stored),
        respond(inserted, Status::InternalServerError) is Ok,
        stored.executes(StatementView::SelectPosts, Answer::Posts(listed), after),
        respond(listed, Status::InternalServerError) is Ok,
    ensures
        exists|i: int|
            0 <= i < listed->Ok_0.len() && #[trigger] listed->Ok_0[i] == (PostSummaryView {
                id: inserted->Ok_0.id,
                title: new_post.title,
                body: new_post.body,
            }),
        forall|i: int, j: int|
            0 <= i < listed->Ok_0.len() && 0 <= j < listed->Ok_0.len()
                && #[trigger] listed->Ok_0[i].id == inserted->Ok_0.id
                && #[trigger] listed->Ok_0[j].id == inserted->Ok_0.id ==> i == j,
{
    let rows = listed->Ok_0;
    let id = inserted->Ok_0.id;
    assert(stored.posts.dom().contains(id));
    let at = choose|i: int| 0 <= i < rows.len() && #[trigger] rows[i].id == id;
    assert(rows[at] == stored.posts[rows[at].id].summary());
    assert forall|i: int, j: int|
        0 <= i < rows.len() && 0 <= j < rows.len() && #[trigger] rows[i].id == id
            && #[trigger] rows[j].id == id implies i == j by {
        if i < j {
            assert(rows[i].id != rows[j].id);
        } else if j < i {
            assert(rows[j].id != rows[i].id);
        }
    }
}

/// A post fetched right after an update that was answered with 200 holds the
/// id it was updated under and the title, body and author of the update, and
/// nothing of what it held before.
///
/// The fetch is taken to be answered, as in
/// [`created_post_can_be_fetched`].
pub proof fn updated_post_is_fetched_in_full(
    db: Database,
    id: int,
    updated_post: UpdatePostView,
    updated: Result<PostView, StorageError>,
    stored: Database,
    fetched: Result<PostView, StorageError>,
    after: Database,
)
    requires
        db.executes(StatementView::update_post(id, updated_post), Answer::Post(updated), stored),
        respond(updated, Status::NotFound) is Ok,
        stored.executes(StatementView::SelectPost { id }, Answer::Post(fetched), after),
        fetched != Err::<PostView, StorageError>(StorageError::Failed),
    ensures
        respond(fetched, Status::NotFound) == Ok::<PostView, Status>(
            PostView {
                id,
                user_id: updated_post.user_id,
                title: updated_post.title,
                body: updated_post.body,
            },
        ),
        respond(fetched, Status::NotFound) == respond(updated, Status::NotFound),
{
}

/// Deleting a post that is not there is confirmed like any other delete, as
/// long as the statement itself ran; the tables stay as they were.
pub proof fn deleting_a_missing_post_is_confirmed(
    db: Database,
    id: int,
    executed: Result<nat, StorageError>,
    after: Database,
)
    requires
        !db.posts.dom().contains(id),
        db.executes(StatementView::DeletePost { id }, Answer::Rows(executed), after),
        executed is Ok,
    ensures
        respond_deleted(executed) == Ok::<Seq<char>, Status>(DELETED@),
        executed == Ok::<nat, StorageError>(0),
        after == db,
{
    assert(after.posts =~= db.posts);
}

/// Fetching a post that is not there gives 404.
pub proof fn missing_post_is_not_found(
    db: Database,
    id: int,
    fetched: Result<PostView, StorageError>,
    after: Database,
)
    requires
        !db.posts.dom().contains(id),
        db.executes(StatementView::SelectPost { id }, Answer::Post(fetched), after),
    ensures
        respond(fetched, Status::NotFound) == Err::<PostView, Status>(Status::NotFound),
{
}

/// Of two updates of one post, the one that the storage runs last decides
/// all three columns: nothing of the earlier one is left, whether or not it
/// took effect. Updates sent at the same time reach the storage in some
/// order, and this holds of either.
pub proof fn last_update_wins(
    db: Database,
    id: int,
    first: UpdatePostView,
    first_updated: Result<PostView, StorageError>,
    between: Database,
    second: UpdatePostView,
    second_updated: Result<PostView, StorageError>,
    after: Database,
)
    requires
        db.executes(StatementView::update_post(id, first), Answer::Post(first_updated), between),
        between.executes(
            StatementView::update_post(id, second),
            Answer::Post(second_updated),
            after,
        ),
        respond(second_updated, Status::NotFound) is Ok,
    ensures
        after.posts.dom().contains(id),
        after.posts[id] == (PostView {
            id,
            user_id: second.user_id,
            title: second.title,
            body: second.body,
        }),
        respond(second_updated, Status::NotFound) == Ok::<PostView, Status>(after.posts[id]),
{
}

/// A post cannot name an author that is not a stored user: creating it gives
/// 500, updating to it gives 404, and the tables stay as they were.
pub proof fn unknown_author_is_refused(
    db: Database,
    statement: StatementView,
    written: Result<PostView, StorageError>,
    after: Database,
)
    requires
        db.executes(statement, Answer::Post(written), after),
        match statement {
            StatementView::InsertPost { user_id, .. } => !db.author_known(user_id),
            StatementView::UpdatePost { user_id, .. } => !db.author_known(user_id),
            _ => false,
        },
    ensures
        statement is InsertPost ==> respond(written, Status::InternalServerError) == Err::<
            PostView,
            Status,
        >(Status::InternalServerError),
        statement is UpdatePost ==> respond(written, Status::NotFound) == Err::<PostView, Status>(
            Status::NotFound,
        ),
        after == db,
{
}

} // verus!
