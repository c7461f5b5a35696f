use posts_api::entity::{CreatePost, CreateUser, Message, Post, PostSummary, UpdatePost, User};
use posts_api::handlers::{
    create_post, create_post_statement, create_user, create_user_statement, delete_post,
    delete_post_statement, get_post, get_post_statement, get_posts, get_posts_statement, root,
    update_post, update_post_statement,
};
use posts_api::statement::Statement;
use posts_api::status::Status;
use posts_api::storage::StorageError;

fn sample_post() -> Post {
    Post { id: 7, user_id: Some(3), title: "Hi".to_string(), body: "World".to_string() }
}

#[test]
fn root_greets() {
    assert_eq!(root(), "Hello, world!");
}

#[test]
fn get_posts_asks_for_all_posts() {
    assert_eq!(get_posts_statement(), Statement::SelectPosts);
}

#[test]
fn get_posts_passes_rows_on_in_order() {
    let rows = vec![
        PostSummary { id: 2, title: "b".to_string(), body: "bb".to_string() },
        PostSummary { id: 1, title: "a".to_string(), body: "aa".to_string() },
    ];
    assert_eq!(get_posts(Ok(rows.clone())), Ok(rows));
}

#[test]
fn get_posts_of_empty_table_is_empty_list() {
    assert_eq!(get_posts(Ok(Vec::new())), Ok(Vec::new()));
}

#[test]
fn get_posts_fails_with_500() {
    assert_eq!(get_posts(Err(StorageError::Failed)), Err(Status::InternalServerError));
    assert_eq!(get_posts(Err(StorageError::RowNotFound)), Err(Status::InternalServerError));
}

#[test]
fn get_post_asks_for_the_id() {
    assert_eq!(get_post_statement(42), Statement::SelectPost { id: 42 });
    assert_eq!(get_post_statement(-1), Statement::SelectPost { id: -1 });
}

#[test]
fn get_post_passes_the_row_on() {
    assert_eq!(get_post(Ok(sample_post())), Ok(sample_post()));
}

#[test]
fn get_post_of_missing_row_is_404() {
    assert_eq!(get_post(Err(StorageError::RowNotFound)), Err(Status::NotFound));
}

#[test]
fn get_post_of_failed_storage_is_404_too() {
    assert_eq!(get_post(Err(StorageError::Failed)), Err(Status::NotFound));
}

#[test]
fn create_post_inserts_the_submitted_values() {
    let new_post =
        CreatePost { user_id: Some(1), title: "Hi".to_string(), body: "World".to_string() };
    assert_eq!(
        create_post_statement(new_post),
        Statement::InsertPost {
            user_id: Some(1),
            title: "Hi".to_string(),
            body: "World".to_string()
        }
    );
}

#[test]
fn create_post_without_author_inserts_null() {
    let new_post = CreatePost { user_id: None, title: "t".to_string(), body: "b".to_string() };
    assert_eq!(
        create_post_statement(new_post),
        Statement::InsertPost { user_id: None, title: "t".to_string(), body: "b".to_string() }
    );
}

#[test]
fn create_post_passes_the_row_on() {
    assert_eq!(create_post(Ok(sample_post())), Ok(sample_post()));
}

#[test]
fn create_post_fails_with_500() {
    assert_eq!(create_post(Err(StorageError::Failed)), Err(Status::InternalServerError));
    assert_eq!(create_post(Err(StorageError::RowNotFound)), Err(Status::InternalServerError));
}

#[test]
fn update_post_overwrites_all_three_columns() {
    let updated_post =
        UpdatePost { title: "T".to_string(), body: "B".to_string(), user_id: None };
    assert_eq!(
        update_post_statement(9, updated_post),
        Statement::UpdatePost {
            title: "T".to_string(),
            body: "B".to_string(),
            user_id: None,
            id: 9
        }
    );
}

#[test]
fn update_post_passes_the_row_on() {
    assert_eq!(update_post(Ok(sample_post())), Ok(sample_post()));
}

#[test]
fn update_post_of_missing_row_is_404() {
    assert_eq!(update_post(Err(StorageError::RowNotFound)), Err(Status::NotFound));
}

#[test]
fn update_post_of_failed_storage_is_404_too() {
    assert_eq!(update_post(Err(StorageError::Failed)), Err(Status::NotFound));
}

#[test]
fn delete_post_asks_to_delete_the_id() {
    assert_eq!(delete_post_statement(5), Statement::DeletePost { id: 5 });
}

#[test]
fn delete_post_confirms_one_row() {
    assert_eq!(
        delete_post(Ok(1)),
        Ok(Message { message: "Post deleted successfully".to_string() })
    );
}

#[test]
fn delete_post_confirms_zero_rows() {
    assert_eq!(
        delete_post(Ok(0)),
        Ok(Message { message: "Post deleted successfully".to_string() })
    );
}

#[test]
fn delete_post_of_failed_statement_is_404() {
    assert_eq!(delete_post(Err(StorageError::Failed)), Err(Status::NotFound));
    assert_eq!(delete_post(Err(StorageError::RowNotFound)), Err(Status::NotFound));
}

#[test]
fn create_user_inserts_the_submitted_values() {
    let new_user = CreateUser { username: "alice".to_string(), email: "a@x.com".to_string() };
    assert_eq!(
        create_user_statement(new_user),
        Statement::InsertUser { username: "alice".to_string(), email: "a@x.com".to_string() }
    );
}

#[test]
fn create_user_passes_the_row_on() {
    let user = User { id: 1, username: "alice".to_string(), email: "a@x.com".to_string() };
    assert_eq!(create_user(Ok(user.clone())), Ok(user));
}

#[test]
fn create_user_fails_with_500() {
    assert_eq!(create_user(Err(StorageError::Failed)), Err(Status::InternalServerError));
}

#[test]
fn statuses_have_their_codes() {
    assert_eq!(Status::Success.code(), 200);
    assert_eq!(Status::NotFound.code(), 404);
    assert_eq!(Status::InternalServerError.code(), 500);
}
