use user_api::error::{Error, FieldError, Status, StorageFailure};
use user_api::handlers::{create_user, get_user, get_users, update_user};
use user_api::model::{Pagination, User, UserUpdate};
use user_api::store::UserTable;

fn user(username: &str, email: &str, bio: &str) -> User {
    User { username: username.to_string(), email: email.to_string(), bio: bio.to_string() }
}

fn taken(field: &str) -> Error {
    Error::Validation(vec![FieldError {
        field: field.to_string(),
        message: "already taken".to_string(),
    }])
}

fn three_users() -> UserTable {
    let mut table = UserTable::new();
    assert_eq!(create_user(&mut table, user("ann", "ann@example.org", "first")), Ok(Status::Created));
    assert_eq!(create_user(&mut table, user("bob", "bob@example.org", "second")), Ok(Status::Created));
    assert_eq!(create_user(&mut table, user("cy", "cy@example.org", "third")), Ok(Status::Created));
    table
}

fn names(users: &Vec<User>) -> Vec<String> {
    let mut out = Vec::new();
    for u in users {
        out.push(u.username.clone());
    }
    out
}

#[test]
fn fetch_of_absent_username_is_not_found() {
    let empty = UserTable::new();
    assert_eq!(get_user(&empty, &"ann".to_string()), Err(Error::NotFound));
    let table = three_users();
    assert_eq!(get_user(&table, &"dora".to_string()), Err(Error::NotFound));
    assert_eq!(get_user(&table, &"Ann".to_string()), Err(Error::NotFound));
    assert_eq!(get_user(&table, &"".to_string()), Err(Error::NotFound));
}

#[test]
fn created_user_is_fetched_as_stored() {
    let mut table = UserTable::new();
    let status = create_user(&mut table, user("ann", "ann@example.org", "likes tea"));
    assert_eq!(status, Ok(Status::Created));
    assert_eq!(status.unwrap().code(), 201);
    assert_eq!(table.len(), 1);
    assert_eq!(
        get_user(&table, &"ann".to_string()),
        Ok(user("ann", "ann@example.org", "likes tea"))
    );
}

#[test]
fn fetch_finds_each_of_three() {
    let table = three_users();
    assert_eq!(get_user(&table, &"bob".to_string()), Ok(user("bob", "bob@example.org", "second")));
    assert_eq!(get_user(&table, &"cy".to_string()), Ok(user("cy", "cy@example.org", "third")));
    assert_eq!(get_user(&table, &"ann".to_string()), Ok(user("ann", "ann@example.org", "first")));
}

#[test]
fn list_first_two_of_three() {
    let table = three_users();
    let page = get_users(&table, &Pagination { offset: Some(0), limit: Some(2) }).unwrap();
    assert_eq!(page.len(), 2);
    assert_eq!(names(&page), vec!["ann".to_string(), "bob".to_string()]);
}

#[test]
fn list_with_offset_at_end_is_empty() {
    let table = three_users();
    let page = get_users(&table, &Pagination { offset: Some(3), limit: None });
    assert_eq!(page, Ok(vec![]));
    let far = get_users(&table, &Pagination { offset: Some(i32::MAX), limit: Some(i32::MAX) });
    assert_eq!(far, Ok(vec![]));
}

#[test]
fn list_without_bounds_returns_all() {
    let table = three_users();
    let page = get_users(&table, &Pagination { offset: None, limit: None }).unwrap();
    assert_eq!(names(&page), vec!["ann".to_string(), "bob".to_string(), "cy".to_string()]);
    assert_eq!(page[2], user("cy", "cy@example.org", "third"));
}

#[test]
fn list_windows() {
    let table = three_users();
    let tail = get_users(&table, &Pagination { offset: Some(1), limit: None }).unwrap();
    assert_eq!(names(&tail), vec!["bob".to_string(), "cy".to_string()]);
    let middle = get_users(&table, &Pagination { offset: Some(1), limit: Some(1) }).unwrap();
    assert_eq!(names(&middle), vec!["bob".to_string()]);
    let over = get_users(&table, &Pagination { offset: Some(2), limit: Some(5) }).unwrap();
    assert_eq!(names(&over), vec!["cy".to_string()]);
    let none = get_users(&table, &Pagination { offset: None, limit: Some(0) }).unwrap();
    assert_eq!(none.len(), 0);
    let empty = get_users(&UserTable::new(), &Pagination { offset: None, limit: None });
    assert_eq!(empty, Ok(vec![]));
}

#[test]
fn list_with_negative_bound_is_internal_error() {
    let table = three_users();
    let low = get_users(&table, &Pagination { offset: Some(-1), limit: None });
    assert!(matches!(low, Err(Error::Internal(StorageFailure { constraint: None, .. }))));
    assert_eq!(low.unwrap_err().status_code(), 500);
    let short = get_users(&table, &Pagination { offset: None, limit: Some(-3) });
    assert!(matches!(short, Err(Error::Internal(_))));
}

#[test]
fn duplicate_username_is_validation_error() {
    let mut table = three_users();
    let again = create_user(&mut table, user("bob", "other@example.org", "x"));
    assert_eq!(again, Err(taken("username")));
    assert_eq!(again.unwrap_err().status_code(), 422);
    assert_eq!(table.len(), 3);
    assert_eq!(get_user(&table, &"bob".to_string()), Ok(user("bob", "bob@example.org", "second")));
}

#[test]
fn duplicate_email_is_validation_error() {
    let mut table = three_users();
    let again = create_user(&mut table, user("dora", "cy@example.org", "x"));
    assert_eq!(again, Err(taken("email")));
    assert_eq!(again.unwrap_err().status_code(), 422);
    assert_eq!(table.len(), 3);
    assert_eq!(get_user(&table, &"dora".to_string()), Err(Error::NotFound));
}

#[test]
fn duplicate_username_and_email_reports_username() {
    let mut table = three_users();
    let again = create_user(&mut table, user("ann", "bob@example.org", "x"));
    assert_eq!(again, Err(taken("username")));
}

#[test]
fn same_bio_is_no_conflict() {
    let mut table = three_users();
    assert_eq!(create_user(&mut table, user("dora", "dora@example.org", "first")), Ok(Status::Created));
    assert_eq!(table.len(), 4);
}

#[test]
fn second_create_under_one_username_is_refused() {
    let mut one = UserTable::new();
    assert_eq!(create_user(&mut one, user("ann", "a@example.org", "a")), Ok(Status::Created));
    assert_eq!(create_user(&mut one, user("ann", "b@example.org", "b")), Err(taken("username")));
    assert_eq!(get_user(&one, &"ann".to_string()), Ok(user("ann", "a@example.org", "a")));

    let mut other = UserTable::new();
    assert_eq!(create_user(&mut other, user("ann", "b@example.org", "b")), Ok(Status::Created));
    assert_eq!(create_user(&mut other, user("ann", "a@example.org", "a")), Err(taken("username")));
    assert_eq!(get_user(&other, &"ann".to_string()), Ok(user("ann", "b@example.org", "b")));
}

#[test]
fn patch_with_bio_only_keeps_email() {
    let mut table = three_users();
    let change = UserUpdate { email: None, bio: Some("rewritten".to_string()) };
    let status = update_user(&mut table, &"bob".to_string(), &change);
    assert_eq!(status, Ok(Status::Accepted));
    assert_eq!(status.unwrap().code(), 202);
    assert_eq!(
        get_user(&table, &"bob".to_string()),
        Ok(user("bob", "bob@example.org", "rewritten"))
    );
    assert_eq!(get_user(&table, &"ann".to_string()), Ok(user("ann", "ann@example.org", "first")));
    assert_eq!(get_user(&table, &"cy".to_string()), Ok(user("cy", "cy@example.org", "third")));
}

#[test]
fn patch_with_email_only_keeps_bio() {
    let mut table = three_users();
    let change = UserUpdate { email: Some("robert@example.org".to_string()), bio: None };
    assert_eq!(update_user(&mut table, &"bob".to_string(), &change), Ok(Status::Accepted));
    assert_eq!(
        get_user(&table, &"bob".to_string()),
        Ok(user("bob", "robert@example.org", "second"))
    );
}

#[test]
fn patch_with_both_fields() {
    let mut table = three_users();
    let change =
        UserUpdate { email: Some("c@example.org".to_string()), bio: Some("".to_string()) };
    assert_eq!(update_user(&mut table, &"cy".to_string(), &change), Ok(Status::Accepted));
    assert_eq!(get_user(&table, &"cy".to_string()), Ok(user("cy", "c@example.org", "")));
    let page = get_users(&table, &Pagination { offset: None, limit: None }).unwrap();
    assert_eq!(names(&page), vec!["ann".to_string(), "bob".to_string(), "cy".to_string()]);
}

#[test]
fn patch_with_empty_payload_changes_nothing() {
    let mut table = three_users();
    let change = UserUpdate { email: None, bio: None };
    assert_eq!(update_user(&mut table, &"ann".to_string(), &change), Ok(Status::Accepted));
    let page = get_users(&table, &Pagination { offset: None, limit: None }).unwrap();
    assert_eq!(
        page,
        vec![
            user("ann", "ann@example.org", "first"),
            user("bob", "bob@example.org", "second"),
            user("cy", "cy@example.org", "third"),
        ]
    );
}

#[test]
fn patch_of_absent_user_is_accepted_without_effect() {
    let mut table = three_users();
    let change = UserUpdate { email: Some("x@example.org".to_string()), bio: Some("x".to_string()) };
    assert_eq!(update_user(&mut table, &"dora".to_string(), &change), Ok(Status::Accepted));
    assert_eq!(table.len(), 3);
    assert_eq!(get_user(&table, &"dora".to_string()), Err(Error::NotFound));
    assert_eq!(get_user(&table, &"ann".to_string()), Ok(user("ann", "ann@example.org", "first")));
}

#[test]
fn patch_to_own_email_is_accepted() {
    let mut table = three_users();
    let change = UserUpdate { email: Some("ann@example.org".to_string()), bio: None };
    assert_eq!(update_user(&mut table, &"ann".to_string(), &change), Ok(Status::Accepted));
    assert_eq!(get_user(&table, &"ann".to_string()), Ok(user("ann", "ann@example.org", "first")));
}

#[test]
fn patch_to_email_of_another_is_internal_error() {
    let mut table = three_users();
    let change =
        UserUpdate { email: Some("cy@example.org".to_string()), bio: Some("new".to_string()) };
    let answer = update_user(&mut table, &"ann".to_string(), &change);
    match &answer {
        Err(Error::Internal(failure)) => {
            assert_eq!(failure.constraint, Some("user_email_key".to_string()));
        }
        other => panic!("unexpected answer: {:?}", other),
    }
    assert_eq!(answer.unwrap_err().status_code(), 500);
    assert_eq!(get_user(&table, &"ann".to_string()), Ok(user("ann", "ann@example.org", "first")));
}

#[test]
fn email_freed_by_patch_can_be_taken() {
    let mut table = three_users();
    let change = UserUpdate { email: Some("new@example.org".to_string()), bio: None };
    assert_eq!(update_user(&mut table, &"ann".to_string(), &change), Ok(Status::Accepted));
    assert_eq!(create_user(&mut table, user("dora", "ann@example.org", "d")), Ok(Status::Created));
    assert_eq!(create_user(&mut table, user("ed", "new@example.org", "e")), Err(taken("email")));
}
