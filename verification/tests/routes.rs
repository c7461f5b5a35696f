use posts_api::handlers::{
    create_post, create_user, delete_post, get_post, get_posts, status_of, update_post,
};
use posts_api::routes::{Method, Route, POSTS_PATH, POST_PATH, ROOT_PATH, USERS_PATH};
use posts_api::status::Status;
use posts_api::storage::StorageError;

fn all_routes() -> Vec<Route> {
    vec![
        Route::Root,
        Route::GetPosts,
        Route::GetPost,
        Route::CreatePost,
        Route::UpdatePost,
        Route::DeletePost,
        Route::CreateUser,
    ]
}

#[test]
fn routes_have_their_methods_and_paths() {
    assert_eq!((Route::Root.method(), Route::Root.path()), (Method::Get, "/"));
    assert_eq!((Route::GetPosts.method(), Route::GetPosts.path()), (Method::Get, "/posts"));
    assert_eq!((Route::GetPost.method(), Route::GetPost.path()), (Method::Get, "/posts/:id"));
    assert_eq!((Route::CreatePost.method(), Route::CreatePost.path()), (Method::Post, "/posts"));
    assert_eq!(
        (Route::UpdatePost.method(), Route::UpdatePost.path()),
        (Method::Put, "/posts/:id")
    );
    assert_eq!(
        (Route::DeletePost.method(), Route::DeletePost.path()),
        (Method::Delete, "/posts/:id")
    );
    assert_eq!((Route::CreateUser.method(), Route::CreateUser.path()), (Method::Post, "/users"));
}

#[test]
fn path_constants() {
    assert_eq!(ROOT_PATH, "/");
    assert_eq!(POSTS_PATH, "/posts");
    assert_eq!(POST_PATH, "/posts/:id");
    assert_eq!(USERS_PATH, "/users");
}

#[test]
fn no_two_routes_share_method_and_path() {
    let routes = all_routes();
    for a in &routes {
        for b in &routes {
            if a.method() == b.method() && a.path() == b.path() {
                assert_eq!(a, b);
            }
        }
    }
}

#[test]
fn routes_fail_with_their_status() {
    assert_eq!(Route::Root.failure(), None);
    assert_eq!(Route::GetPosts.failure(), Some(Status::InternalServerError));
    assert_eq!(Route::CreatePost.failure(), Some(Status::InternalServerError));
    assert_eq!(Route::CreateUser.failure(), Some(Status::InternalServerError));
    assert_eq!(Route::GetPost.failure(), Some(Status::NotFound));
    assert_eq!(Route::UpdatePost.failure(), Some(Status::NotFound));
    assert_eq!(Route::DeletePost.failure(), Some(Status::NotFound));
}

#[test]
fn handlers_fail_as_their_routes_say() {
    let failed = StorageError::Failed;
    assert_eq!(get_posts(Err(failed)).err(), Route::GetPosts.failure());
    assert_eq!(get_post(Err(failed)).err(), Route::GetPost.failure());
    assert_eq!(create_post(Err(failed)).err(), Route::CreatePost.failure());
    assert_eq!(update_post(Err(failed)).err(), Route::UpdatePost.failure());
    assert_eq!(delete_post(Err(failed)).err(), Route::DeletePost.failure());
    assert_eq!(create_user(Err(failed)).err(), Route::CreateUser.failure());
}

#[test]
fn success_is_sent_as_200() {
    assert_eq!(status_of(&delete_post(Ok(1))), Status::Success);
    assert_eq!(status_of(&delete_post(Ok(1))).code(), 200);
    assert_eq!(status_of(&get_posts(Ok(Vec::new()))).code(), 200);
}

#[test]
fn failure_is_sent_as_its_status() {
    assert_eq!(status_of(&get_post(Err(StorageError::RowNotFound))).code(), 404);
    assert_eq!(status_of(&delete_post(Err(StorageError::Failed))).code(), 404);
    assert_eq!(status_of(&get_posts(Err(StorageError::Failed))).code(), 500);
    assert_eq!(status_of(&create_user(Err(StorageError::Failed))).code(), 500);
}
