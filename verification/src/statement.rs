//! The six SQL statements of the service.
//!
//! A [`Statement`] is one statement together with the values bound to its
//! placeholders. The program that owns the connection pool asks it for the
//! text ([`Statement::sql`]), for the way to run it ([`Statement::mode`]) and
//! for the values in placeholder order ([`Statement::params`]).

use vstd::prelude::*;
use crate::entity::{optional_int, CreatePostView, CreateUserView, UpdatePostView};

verus! {

/// Text of the statement that lists every post. It names three of the four
/// columns: a listed post comes without its author.
pub const SELECT_POSTS: &'static str = "SELECT id, title, body FROM posts";

/// Text of the statement that reads one post.
pub const SELECT_POST: &'static str = "SELECT id, user_id, title, body FROM posts WHERE id = $1";

/// Text of the statement that stores a new post.
pub const INSERT_POST: &'static str =
    "INSERT INTO posts (user_id, title, body) VALUES ($1, $2, $3) RETURNING id, title, body, user_id";

/// Text of the statement that overwrites a post.
pub const UPDATE_POST: &'static str =
    "UPDATE posts SET title = $1, body = $2, user_id = $3 WHERE id = $4 RETURNING id, user_id, title, body";

/// Text of the statement that removes a post.
pub const DELETE_POST: &'static str = "DELETE FROM posts WHERE id = $1";

/// Text of the statement that stores a new user.
pub const INSERT_USER: &'static str =
    "INSERT INTO users (username, email) VALUES ($1, $2) RETURNING id, username, email";

/// How a statement is run, and so what comes back from it.
#[derive(Debug, Clone, Copy, PartialEq, Eq, Structural)]
pub enum Mode {
    /// Fetch every row the statement yields.
    FetchAll,
    /// Fetch exactly one row: a statement that yields none fails with
    /// "row not found".
    FetchOne,
    /// Run the statement for its effect and report how many rows it touched.
    Execute,
}

/// A value bound to a placeholder.
#[derive(Debug, PartialEq, Eq)]
pub enum Param {
    /// An integer column that cannot be null.
    Int(i32),
    /// An integer column that can: `None` binds SQL `NULL`.
    NullableInt(Option<i32>),
    /// A text column.
    Text(String),
}

/// What a [`Param`] is.
pub ghost enum ParamView {
    Int(int),
    NullableInt(Option<int>),
    Text(Seq<char>),
}

impl View for Param {
    type V = ParamView;

    open spec fn view(&self) -> ParamView {
        match self {
            Param::Int(n) => ParamView::Int(*n as int),
            Param::NullableInt(n) => ParamView::NullableInt(optional_int(*n)),
            Param::Text(text) => ParamView::Text(text@),
        }
    }
}

impl Clone for Param {
    fn clone(&self) -> (copy: Param)
        ensures
            copy == *self,
    {
        match self {
            Param::Int(n) => Param::Int(*n),
            Param::NullableInt(n) => Param::NullableInt(*n),
            Param::Text(text) => Param::Text(text.clone()),
        }
    }
}

/// The views of a run of bound values, in the same order.
pub open spec fn params_view(params: Seq<Param>) -> Seq<ParamView> {
    params.map_values(|param: Param| param@)
}

/// One statement of the service, with the values it binds.
#[derive(Debug, PartialEq, Eq)]
pub enum Statement {
    /// List every post, three columns each.
    SelectPosts,
    /// Read the post with this id.
    SelectPost { id: i32 },
    /// Store a new post and read it back with the id the storage gave it.
    InsertPost { user_id: Option<i32>, title: String, body: String },
    /// Overwrite title, body and author of the post with this id and read the
    /// row back.
    UpdatePost { title: String, body: String, user_id: Option<i32>, id: i32 },
    /// Remove the post with this id.
    DeletePost { id: i32 },
    /// Store a new user and read it back with the id the storage gave it.
    InsertUser { username: String, email: String },
}

/// What a [`Statement`] is.
pub ghost enum StatementView {
    SelectPosts,
    SelectPost { id: int },
    InsertPost { user_id: Option<int>, title: Seq<char>, body: Seq<char> },
    UpdatePost { title: Seq<char>, body: Seq<char>, user_id: Option<int>, id: int },
    DeletePost { id: int },
    InsertUser { username: Seq<char>, email: Seq<char> },
}

impl View for Statement {
    type V = StatementView;

    open spec fn view(&self) -> StatementView {
        match self {
            Statement::SelectPosts => StatementView::SelectPosts,
            Statement::SelectPost { id } => StatementView::SelectPost { id: *id as int },
            Statement::InsertPost { user_id, title, body } => StatementView::InsertPost {
                user_id: optional_int(*user_id),
                title: title@,
                body: body@,
            },
            Statement::UpdatePost { title, body, user_id, id } => StatementView::UpdatePost {
                title: title@,
                body: body@,
                user_id: optional_int(*user_id),
                id: *id as int,
            },
            Statement::DeletePost { id } => StatementView::DeletePost { id: *id as int },
            Statement::InsertUser { username, email } => StatementView::InsertUser {
                username: username@,
                email: email@,
            },
        }
    }
}

impl Clone for Statement {
    fn clone(&self) -> (copy: Statement)
        ensures
            copy == *self,
    {
        match self {
            Statement::SelectPosts => Statement::SelectPosts,
            Statement::SelectPost { id } => Statement::SelectPost { id: *id },
            Statement::InsertPost { user_id, title, body } => Statement::InsertPost {
                user_id: *user_id,
                title: title.clone(),
                body: body.clone(),
            },
            Statement::UpdatePost { title, body, user_id, id } => Statement::UpdatePost {
                title: title.clone(),
                body: body.clone(),
                user_id: *user_id,
                id: *id,
            },
            Statement::DeletePost { id } => Statement::DeletePost { id: *id },
            Statement::InsertUser { username, email } => Statement::InsertUser {
                username: username.clone(),
                email: email.clone(),
            },
        }
    }
}

impl StatementView {
    /// The insert that stores `new_post`.
    pub open spec fn insert_post(new_post: CreatePostView) -> StatementView {
        StatementView::InsertPost {
            user_id: new_post.user_id,
            title: new_post.title,
            body: new_post.body,
        }
    }

    /// The update that overwrites the post `id` with `updated_post`.
    pub open spec fn update_post(id: int, updated_post: UpdatePostView) -> StatementView {
        StatementView::UpdatePost {
            title: updated_post.title,
            body: updated_post.body,
            user_id: updated_post.user_id,
            id,
        }
    }

    /// The insert that stores `new_user`.
    pub open spec fn insert_user(new_user: CreateUserView) -> StatementView {
        StatementView::InsertUser { username: new_user.username, email: new_user.email }
    }

    /// The statement's text, with `$1`, `$2`, ... for the bound values.
    pub open spec fn sql(self) -> Seq<char> {
        match self {
            StatementView::SelectPosts => SELECT_POSTS@,
            StatementView::SelectPost { .. } => SELECT_POST@,
            StatementView::InsertPost { .. } => INSERT_POST@,
            StatementView::UpdatePost { .. } => UPDATE_POST@,
            StatementView::DeletePost { .. } => DELETE_POST@,
            StatementView::InsertUser { .. } => INSERT_USER@,
        }
    }

    /// How the statement is run.
    pub open spec fn mode(self) -> Mode {
        match self {
            StatementView::SelectPosts => Mode::FetchAll,
            StatementView::DeletePost { .. } => Mode::Execute,
            _ => Mode::FetchOne,
        }
    }

    /// The bound values: entry `i` belongs to the placeholder `$(i + 1)`.
    pub open spec fn params(self) -> Seq<ParamView> {
        match self {
            StatementView::SelectPosts => seq![],
            StatementView::SelectPost { id } => seq![ParamView::Int(id)],
            StatementView::InsertPost { user_id, title, body } => seq![
                ParamView::NullableInt(user_id),
                ParamView::Text(title),
                ParamView::Text(body),
            ],
            StatementView::UpdatePost { title, body, user_id, id } => seq![
                ParamView::Text(title),
                ParamView::Text(body),
                ParamView::NullableInt(user_id),
                ParamView::Int(id),
            ],
            StatementView::DeletePost { id } => seq![ParamView::Int(id)],
            StatementView::InsertUser { username, email } => seq![
                ParamView::Text(username),
                ParamView::Text(email),
            ],
        }
    }
}

impl Statement {
    /// The text to prepare.
    pub fn sql(&self) -> (text: &'static str)
        ensures
            text@ == self@.sql(),
    {
        match self {
            Statement::SelectPosts => SELECT_POSTS,
            Statement::SelectPost { .. } => SELECT_POST,
            Statement::InsertPost { .. } => INSERT_POST,
            Statement::UpdatePost { .. } => UPDATE_POST,
            Statement::DeletePost { .. } => DELETE_POST,
            Statement::InsertUser { .. } => INSERT_USER,
        }
    }

    /// How to run the statement.
    pub fn mode(&self) -> (mode: Mode)
        ensures
            mode == self@.mode(),
    {
        match self {
            Statement::SelectPosts => Mode::FetchAll,
            Statement::DeletePost { .. } => Mode::Execute,
            _ => Mode::FetchOne,
        }
    }

    /// The values to bind, in placeholder order.
    pub fn params(self) -> (params: Vec<Param>)
        ensures
            params_view(params@) == self@.params(),
    {
        let ghost wanted = self@.params();
        let mut params: Vec<Param> = Vec::new();
        match self {
            Statement::SelectPosts => {},
            Statement::SelectPost { id } => {
                params.push(Param::Int(id));
            },
            Statement::InsertPost { user_id, title, body } => {
                params.push(Param::NullableInt(user_id));
                params.push(Param::Text(title));
                params.push(Param::Text(body));
            },
            Statement::UpdatePost { title, body, user_id, id } => {
                params.push(Param::Text(title));
                params.push(Param::Text(body));
                params.push(Param::NullableInt(user_id));
                params.push(Param::Int(id));
            },
            Statement::DeletePost { id } => {
                params.push(Param::Int(id));
            },
            Statement::InsertUser { username, email } => {
                params.push(Param::Text(username));
                params.push(Param::Text(email));
            },
        }
        assert(params_view(params@) =~= wanted);
        params
    }
}

} // verus!
