//! The storage, as far as the handlers depend on it.
//!
//! The storage itself is a relational database behind a connection pool and
//! is not part of this crate. What is here is [`StorageError`], the error the
//! program around the crate reports when a statement gave no result, and a
//! model of the two tables: [`Database`] says what the tables hold, and
//! [`Database::executes`] says which answers a database that honours its
//! statements and constraints can give to each [`StatementView`], and what
//! the tables hold afterwards. The model is the ground on which the
//! end-to-end properties of the handlers are stated and proved; it claims
//! nothing of any particular database product.
//!
//! In the model
//! - every statement is one atomic step, so concurrent requests appear as
//!   some sequence of steps;
//! - any statement may fail without effect;
//! - ids are handed out by the storage, never twice, not even after a delete;
//! - a post's author must be a stored user when the post is written.

use vstd::prelude::*;
use crate::entity::{PostSummaryView, PostView, UserView};
use crate::statement::StatementView;

verus! {

/// Why the storage gave no result.
#[derive(Debug, Clone, Copy, PartialEq, Eq, Structural)]
pub enum StorageError {
    /// A statement run to fetch one row yielded none.
    RowNotFound,
    /// Anything else: a constraint was violated, the connection broke, the
    /// pool timed out.
    Failed,
}

/// What comes back from running a statement, by the way it was run.
pub ghost enum Answer {
    /// From fetching all rows of a listing.
    Posts(Result<Seq<PostSummaryView>, StorageError>),
    /// From fetching one row of the posts table.
    Post(Result<PostView, StorageError>),
    /// From fetching one row of the users table.
    User(Result<UserView, StorageError>),
    /// From executing for effect: the number of rows touched.
    Rows(Result<nat, StorageError>),
}

/// The contents of the two tables.
pub ghost struct Database {
    /// The posts table, by primary key.
    pub posts: Map<int, PostView>,
    /// The users table, by primary key.
    pub users: Map<int, UserView>,
    /// Every id that an insert into posts has handed out so far.
    pub issued_post_ids: Set<int>,
    /// Every id that an insert into users has handed out so far.
    pub issued_user_ids: Set<int>,
}

impl Database {
    /// Two empty tables, before any id was handed out.
    pub open spec fn empty() -> Database {
        Database {
            posts: Map::empty(),
            users: Map::empty(),
            issued_post_ids: Set::empty(),
            issued_user_ids: Set::empty(),
        }
    }

    /// Whether `user_id` may stand in a post: it is absent or the key of a
    /// stored user.
    pub open spec fn author_known(self, user_id: Option<int>) -> bool {
        user_id matches Some(user) ==> self.users.dom().contains(user)
    }

    /// The invariant of the tables: rows sit under their own id, ids are
    /// 32-bit and were handed out by an insert, and every author is a stored
    /// user.
    pub open spec fn wf(self) -> bool {
        &&& forall|id: int| #[trigger]
            self.posts.dom().contains(id) ==> {
                &&& self.posts[id].id == id
                &&& i32::MIN <= id <= i32::MAX
                &&& self.issued_post_ids.contains(id)
                &&& self.author_known(self.posts[id].user_id)
            }
        &&& forall|id: int| #[trigger]
            self.users.dom().contains(id) ==> {
                &&& self.users[id].id == id
                &&& i32::MIN <= id <= i32::MAX
                &&& self.issued_user_ids.contains(id)
            }
    }

    /// `rows` lists the posts table: every stored post once, in any order,
    /// each with its three listed columns.
    pub open spec fn lists(self, rows: Seq<PostSummaryView>) -> bool {
        &&& forall|i: int|
            0 <= i < rows.len() ==> {
                &&& self.posts.dom().contains(#[trigger] rows[i].id)
                &&& rows[i] == self.posts[rows[i].id].summary()
            }
        &&& forall|i: int, j: int|
            0 <= i < j < rows.len() ==> #[trigger] rows[i].id != #[trigger] rows[j].id
        &&& forall|id: int| #[trigger]
            self.posts.dom().contains(id) ==> exists|i: int|
                0 <= i < rows.len() && #[trigger] rows[i].id == id
    }

    /// The tables after `post` was written under its id.
    pub open spec fn with_post(self, post: PostView) -> Database {
        Database {
            posts: self.posts.insert(post.id, post),
            users: self.users,
            issued_post_ids: self.issued_post_ids.insert(post.id),
            issued_user_ids: self.issued_user_ids,
        }
    }

    /// The tables after the post `id` was removed, if there was one.
    pub open spec fn without_post(self, id: int) -> Database {
        Database {
            posts: self.posts.remove(id),
            users: self.users,
            issued_post_ids: self.issued_post_ids,
            issued_user_ids: self.issued_user_ids,
        }
    }

    /// The tables after `user` was written under its id.
    pub open spec fn with_user(self, user: UserView) -> Database {
        Database {
            posts: self.posts,
            users: self.users.insert(user.id, user),
            issued_post_ids: self.issued_post_ids,
            issued_user_ids: self.issued_user_ids.insert(user.id),
        }
    }

    /// Running `statement` on these tables can give `answer` and leave the
    /// tables as `after`.
    ///
    /// A statement run in another way than its [`StatementView::mode`] says
    /// has no answer here.
    pub open spec fn executes(self, statement: StatementView, answer: Answer, after: Database)
        -> bool {
        match statement {
            StatementView::SelectPosts => {
                &&& answer matches Answer::Posts(listed)
                &&& after == self
                &&& listed matches Ok(rows) ==> self.lists(rows)
            },
            StatementView::SelectPost { id } => {
                &&& answer matches Answer::Post(fetched)
                &&& after == self
                &&& match fetched {
                    Ok(post) => self.posts.dom().contains(id) && post == self.posts[id],
                    Err(StorageError::RowNotFound) => !self.posts.dom().contains(id),
                    Err(StorageError::Failed) => true,
                }
            },
            StatementView::InsertPost { user_id, title, body } => {
                &&& answer matches Answer::Post(inserted)
                &&& match inserted {
                    Ok(post) => {
                        &&& post == (PostView { id: post.id, user_id, title, body })
                        &&& i32::MIN <= post.id <= i32::MAX
                        &&& !self.issued_post_ids.contains(post.id)
                        &&& self.author_known(user_id)
                        &&& after == self.with_post(post)
                    },
                    Err(_) => after == self,
                }
            },
            StatementView::UpdatePost { title, body, user_id, id } => {
                &&& answer matches Answer::Post(updated)
                &&& match updated {
                    Ok(post) => {
                        &&& post == (PostView { id, user_id, title, body })
                        &&& self.posts.dom().contains(id)
                        &&& self.author_known(user_id)
                        &&& after == self.with_post(post)
                    },
                    Err(StorageError::RowNotFound) => {
                        &&& !self.posts.dom().contains(id)
                        &&& after == self
                    },
                    Err(StorageError::Failed) => after == self,
                }
            },
            StatementView::DeletePost { id } => {
                &&& answer matches Answer::Rows(executed)
                &&& match executed {
                    Ok(rows) => {
                        &&& rows == if self.posts.dom().contains(id) {
                            1nat
                        } else {
                            0nat
                        }
                        &&& after == self.without_post(id)
                    },
                    Err(_) => after == self,
                }
            },
            StatementView::InsertUser { username, email } => {
                &&& answer matches Answer::User(inserted)
                &&& match inserted {
                    Ok(user) => {
                        &&& user == (UserView { id: user.id, username, email })
                        &&& i32::MIN <= user.id <= i32::MAX
                        &&& !self.issued_user_ids.contains(user.id)
                        &&& after == self.with_user(user)
                    },
                    Err(_) => after == self,
                }
            },
        }
    }

    /// The empty tables meet the invariant.
    pub proof fn empty_is_wf()
        ensures
            Database::empty().wf(),
    {
    }

    /// No statement breaks the invariant of the tables.
    pub proof fn executes_keeps_wf(self, statement: StatementView, answer: Answer, after: Database)
        requires
            self.wf(),
            self.executes(statement, answer, after),
        ensures
            after.wf(),
    {
    }

    /// Ids that were handed out stay handed out.
    pub proof fn executes_keeps_issued_ids(
        self,
        statement: StatementView,
        answer: Answer,
        after: Database,
    )
        requires
            self.executes(statement, answer, after),
        ensures
            self.issued_post_ids.subset_of(after.issued_post_ids),
            self.issued_user_ids.subset_of(after.issued_user_ids),
    {
    }
}

/// One statement that the storage ran: what was asked, what came back, and
/// what the tables held afterwards.
pub ghost struct Step {
    pub statement: StatementView,
    pub answer: Answer,
    pub after: Database,
}

/// The tables just before step `i` of `steps`, which began on `start`.
pub open spec fn tables_before(start: Database, steps: Seq<Step>, i: int) -> Database {
    if i <= 0 {
        start
    } else {
        steps[i - 1].after
    }
}

/// `steps` is a history of the storage from `start` on: each step ran on the
/// tables that the step before it left.
pub open spec fn is_history(start: Database, steps: Seq<Step>) -> bool {
    forall|i: int|
        0 <= i < steps.len() ==> tables_before(start, steps, i).executes(
            (#[trigger] steps[i]).statement,
            steps[i].answer,
            steps[i].after,
        )
}

/// Along a history the invariant of the tables holds before every step.
pub proof fn history_keeps_wf(start: Database, steps: Seq<Step>, i: int)
    requires
        start.wf(),
        is_history(start, steps),
        0 <= i <= steps.len(),
    ensures
        tables_before(start, steps, i).wf(),
    decreases i,
{
    if i > 0 {
        history_keeps_wf(start, steps, i - 1);
        let step = steps[i - 1];
        tables_before(start, steps, i - 1).executes_keeps_wf(
            step.statement,
            step.answer,
            step.after,
        );
    }
}

/// Along a history an id of a post, once handed out, stays handed out.
pub proof fn history_keeps_issued_ids(
    start: Database,
    steps: Seq<Step>,
    id: int,
    from: int,
    to: int,
)
    requires
        is_history(start, steps),
        0 <= from <= to <= steps.len(),
        tables_before(start, steps, from).issued_post_ids.contains(id),
    ensures
        tables_before(start, steps, to).issued_post_ids.contains(id),
    decreases to - from,
{
    if from < to {
        history_keeps_issued_ids(start, steps, id, from, to - 1);
        let step = steps[to - 1];
        tables_before(start, steps, to - 1).executes_keeps_issued_ids(
            step.statement,
            step.answer,
            step.after,
        );
    }
}

} // verus!
