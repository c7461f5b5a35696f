//! The records the service stores and the shapes it takes and gives.
//!
//! Each executable type has a view: the same record over mathematical
//! integers and character sequences. Contracts and the storage model speak of
//! the views.

use vstd::prelude::*;

verus! {

/// An optional 32-bit integer as an optional mathematical integer.
pub open spec fn optional_int(value: Option<i32>) -> Option<int> {
    match value {
        Some(n) => Some(n as int),
        None => None,
    }
}

/// A stored post, with all four columns.
#[derive(Debug, PartialEq, Eq)]
pub struct Post {
    /// Primary key, chosen by the storage.
    pub id: i32,
    /// The author, if any: a key of the users table.
    pub user_id: Option<i32>,
    pub title: String,
    pub body: String,
}

/// What a [`Post`] is: its four columns as plain values.
pub ghost struct PostView {
    pub id: int,
    pub user_id: Option<int>,
    pub title: Seq<char>,
    pub body: Seq<char>,
}

impl View for Post {
    type V = PostView;

    open spec fn view(&self) -> PostView {
        PostView {
            id: self.id as int,
            user_id: optional_int(self.user_id),
            title: self.title@,
            body: self.body@,
        }
    }
}

impl Clone for Post {
    fn clone(&self) -> (copy: Post)
        ensures
            copy == *self,
    {
        Post {
            id: self.id,
            user_id: self.user_id,
            title: self.title.clone(),
            body: self.body.clone(),
        }
    }
}

impl PostView {
    /// The three columns that a listing shows of this post.
    pub open spec fn summary(self) -> PostSummaryView {
        PostSummaryView { id: self.id, title: self.title, body: self.body }
    }
}

/// A post as the listing shows it: without its author.
///
/// The listing selects three of the four columns, so its entries carry no
/// `user_id` at all, not an empty one.
#[derive(Debug, PartialEq, Eq)]
pub struct PostSummary {
    pub id: i32,
    pub title: String,
    pub body: String,
}

/// What a [`PostSummary`] is.
pub ghost struct PostSummaryView {
    pub id: int,
    pub title: Seq<char>,
    pub body: Seq<char>,
}

impl View for PostSummary {
    type V = PostSummaryView;

    open spec fn view(&self) -> PostSummaryView {
        PostSummaryView { id: self.id as int, title: self.title@, body: self.body@ }
    }
}

impl Clone for PostSummary {
    fn clone(&self) -> (copy: PostSummary)
        ensures
            copy == *self,
    {
        PostSummary { id: self.id, title: self.title.clone(), body: self.body.clone() }
    }
}

/// Body of a request to create a post.
#[derive(Debug, PartialEq, Eq)]
pub struct CreatePost {
    pub user_id: Option<i32>,
    pub title: String,
    pub body: String,
}

/// What a [`CreatePost`] is.
pub ghost struct CreatePostView {
    pub user_id: Option<int>,
    pub title: Seq<char>,
    pub body: Seq<char>,
}

impl View for CreatePost {
    type V = CreatePostView;

    open spec fn view(&self) -> CreatePostView {
        CreatePostView {
            user_id: optional_int(self.user_id),
            title: self.title@,
            body: self.body@,
        }
    }
}

impl Clone for CreatePost {
    fn clone(&self) -> (copy: CreatePost)
        ensures
            copy == *self,
    {
        CreatePost {
            user_id: self.user_id,
            title: self.title.clone(),
            body: self.body.clone(),
        }
    }
}

/// Body of a request to update a post. It replaces all three columns: a
/// `user_id` left out clears the author.
#[derive(Debug, PartialEq, Eq)]
pub struct UpdatePost {
    pub title: String,
    pub body: String,
    pub user_id: Option<i32>,
}

/// What an [`UpdatePost`] is.
pub ghost struct UpdatePostView {
    pub title: Seq<char>,
    pub body: Seq<char>,
    pub user_id: Option<int>,
}

impl View for UpdatePost {
    type V = UpdatePostView;

    open spec fn view(&self) -> UpdatePostView {
        UpdatePostView {
            title: self.title@,
            body: self.body@,
            user_id: optional_int(self.user_id),
        }
    }
}

impl Clone for UpdatePost {
    fn clone(&self) -> (copy: UpdatePost)
        ensures
            copy == *self,
    {
        UpdatePost {
            title: self.title.clone(),
            body: self.body.clone(),
            user_id: self.user_id,
        }
    }
}

/// A stored user.
#[derive(Debug, PartialEq, Eq)]
pub struct User {
    /// Primary key, chosen by the storage.
    pub id: i32,
    pub username: String,
    pub email: String,
}

/// What a [`User`] is.
pub ghost struct UserView {
    pub id: int,
    pub username: Seq<char>,
    pub email: Seq<char>,
}

impl View for User {
    type V = UserView;

    open spec fn view(&self) -> UserView {
        UserView { id: self.id as int, username: self.username@, email: self.email@ }
    }
}

impl Clone for User {
    fn clone(&self) -> (copy: User)
        ensures
            copy == *self,
    {
        User { id: self.id, username: self.username.clone(), email: self.email.clone() }
    }
}

/// Body of a request to create a user.
#[derive(Debug, PartialEq, Eq)]
pub struct CreateUser {
    pub username: String,
    pub email: String,
}

/// What a [`CreateUser`] is.
pub ghost struct CreateUserView {
    pub username: Seq<char>,
    pub email: Seq<char>,
}

impl View for CreateUser {
    type V = CreateUserView;

    open spec fn view(&self) -> CreateUserView {
        CreateUserView { username: self.username@, email: self.email@ }
    }
}

impl Clone for CreateUser {
    fn clone(&self) -> (copy: CreateUser)
        ensures
            copy == *self,
    {
        CreateUser { username: self.username.clone(), email: self.email.clone() }
    }
}

/// A confirmation that carries nothing but a sentence.
#[derive(Debug, PartialEq, Eq)]
pub struct Message {
    pub message: String,
}

impl View for Message {
    type V = Seq<char>;

    open spec fn view(&self) -> Seq<char> {
        self.message@
    }
}

impl Clone for Message {
    fn clone(&self) -> (copy: Message)
        ensures
            copy == *self,
    {
        Message { message: self.message.clone() }
    }
}

} // verus!
