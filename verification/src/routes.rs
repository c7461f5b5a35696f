//! The HTTP surface: which method and path reach which handler, and the
//! status a handler fails with.

use vstd::prelude::*;
use crate::status::Status;

verus! {

/// Path of the greeting.
pub const ROOT_PATH: &'static str = "/";

/// Path of the collection of posts.
pub const POSTS_PATH: &'static str = "/posts";

/// Path of one post; `:id` stands for its integer id.
pub const POST_PATH: &'static str = "/posts/:id";

/// Path of the collection of users.
pub const USERS_PATH: &'static str = "/users";

/// The HTTP methods the service answers to.
#[derive(Debug, Clone, Copy, PartialEq, Eq, Structural)]
pub enum Method {
    Get,
    Post,
    Put,
    Delete,
}

/// The routes of the service, one per handler.
#[derive(Debug, Clone, Copy, PartialEq, Eq, Structural)]
pub enum Route {
    /// `GET /`
    Root,
    /// `GET /posts`
    GetPosts,
    /// `GET /posts/:id`
    GetPost,
    /// `POST /posts`
    CreatePost,
    /// `PUT /posts/:id`
    UpdatePost,
    /// `DELETE /posts/:id`
    DeletePost,
    /// `POST /users`
    CreateUser,
}

impl Route {
    /// The method of this route.
    pub open spec fn spec_method(self) -> Method {
        match self {
            Route::Root | Route::GetPosts | Route::GetPost => Method::Get,
            Route::CreatePost | Route::CreateUser => Method::Post,
            Route::UpdatePost => Method::Put,
            Route::DeletePost => Method::Delete,
        }
    }

    /// The path of this route.
    pub open spec fn spec_path(self) -> Seq<char> {
        match self {
            Route::Root => ROOT_PATH@,
            Route::GetPosts | Route::CreatePost => POSTS_PATH@,
            Route::GetPost | Route::UpdatePost | Route::DeletePost => POST_PATH@,
            Route::CreateUser => USERS_PATH@,
        }
    }

    /// The status this route's handler fails with; `None` where it cannot
    /// fail. Success is always [`Status::Success`].
    pub open spec fn spec_failure(self) -> Option<Status> {
        match self {
            Route::Root => None,
            Route::GetPosts | Route::CreatePost | Route::CreateUser => Some(
                Status::InternalServerError,
            ),
            Route::GetPost | Route::UpdatePost | Route::DeletePost => Some(Status::NotFound),
        }
    }

    /// The method to register the handler under.
    #[verifier::when_used_as_spec(spec_method)]
    pub fn method(self) -> (method: Method)
        ensures
            method == self.spec_method(),
    {
        match self {
            Route::Root | Route::GetPosts | Route::GetPost => Method::Get,
            Route::CreatePost | Route::CreateUser => Method::Post,
            Route::UpdatePost => Method::Put,
            Route::DeletePost => Method::Delete,
        }
    }

    /// The path to register the handler under.
    pub fn path(self) -> (path: &'static str)
        ensures
            path@ == self.spec_path(),
    {
        match self {
            Route::Root => ROOT_PATH,
            Route::GetPosts | Route::CreatePost => POSTS_PATH,
            Route::GetPost | Route::UpdatePost | Route::DeletePost => POST_PATH,
            Route::CreateUser => USERS_PATH,
        }
    }

    /// The status the handler fails with, if it can fail.
    #[verifier::when_used_as_spec(spec_failure)]
    pub fn failure(self) -> (failure: Option<Status>)
        ensures
            failure == self.spec_failure(),
    {
        match self {
            Route::Root => None,
            Route::GetPosts | Route::CreatePost | Route::CreateUser => Some(
                Status::InternalServerError,
            ),
            Route::GetPost | Route::UpdatePost | Route::DeletePost => Some(Status::NotFound),
        }
    }

    /// A method and a path reach at most one handler.
    pub proof fn routes_are_distinct(self, other: Route)
        requires
            self.spec_method() == other.spec_method(),
            self.spec_path() == other.spec_path(),
        ensures
            self == other,
    {
        reveal_strlit("/");
        reveal_strlit("/posts");
        reveal_strlit("/posts/:id");
        reveal_strlit("/users");
        assert("/"@.len() == 1);
        assert("/posts"@.len() == 6);
        assert("/posts/:id"@.len() == 10);
        assert("/users"@.len() == 6);
        assert("/posts"@[1] == 'p');
        assert("/users"@[1] == 'u');
    }
}

} // verus!
