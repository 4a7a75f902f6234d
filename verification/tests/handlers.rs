use user_api::adapters::api::{
    create_user, created_reply, found_reply, get_user, CreateUserRequest,
};
use user_api::adapters::repository::InMemoryUserRepository;
use user_api::domain::dto::{ApiErrorResponse, ApiResponse, Envelope, HttpReply};
use user_api::domain::User;
use user_api::errors::AppError;
use user_api::use_case::UserUseCase;

fn request(username: &str, email: &str) -> CreateUserRequest {
    CreateUserRequest { username: username.to_string(), email: email.to_string() }
}

fn failure(reply: HttpReply) -> ApiErrorResponse {
    match reply.body {
        Envelope::Failure(body) => body,
        Envelope::Success(_) => panic!("a success envelope where a failure was due"),
    }
}

fn success(reply: HttpReply) -> ApiResponse<User> {
    match reply.body {
        Envelope::Success(body) => body,
        Envelope::Failure(_) => panic!("a failure envelope where a success was due"),
    }
}

#[test]
fn post_with_empty_name_and_bad_email_is_rejected_for_both() {
    let mut use_case = UserUseCase::new(InMemoryUserRepository::new());
    let reply = create_user(request("", "bad"), &mut use_case);
    assert_eq!(reply.status, 400);
    let body = failure(reply);
    assert_eq!(body.status, "error");
    assert_eq!(body.message, "Invalid input provided");
    let errors = body.errors.expect("the fields that broke a rule");
    assert_eq!(errors.entries().len(), 2);
    assert_eq!(errors.get("username"), Some(&vec!["Username cannot be empty".to_string()]));
    assert_eq!(errors.get("email"), Some(&vec!["Invalid email format".to_string()]));
}

#[test]
fn rejected_post_never_reaches_the_store() {
    let mut use_case = UserUseCase::new(InMemoryUserRepository::new());
    let reply = create_user(request("", "bad"), &mut use_case);
    assert_eq!(reply.status, 400);
    // The first row that the store ever takes gets the number one.
    let stored = use_case.create_user(User {
        id: 0,
        username: "bob".to_string(),
        email: "bob@example.com".to_string(),
    });
    assert_eq!(stored.expect("an empty store takes a row").id, 1);
}

#[test]
fn post_with_bad_email_alone_reports_the_email_alone() {
    let mut use_case = UserUseCase::new(InMemoryUserRepository::new());
    let reply = create_user(request("alice", "alice.example.com"), &mut use_case);
    assert_eq!(reply.status, 400);
    let errors = failure(reply).errors.expect("the field that broke a rule");
    assert_eq!(errors.entries().len(), 1);
    assert!(!errors.contains_key("username"));
    assert_eq!(errors.get("email"), Some(&vec!["Invalid email format".to_string()]));
}

#[test]
fn post_with_empty_name_alone_reports_the_name_alone() {
    let mut use_case = UserUseCase::new(InMemoryUserRepository::new());
    let reply = create_user(request("", "alice@example.com"), &mut use_case);
    assert_eq!(reply.status, 400);
    let errors = failure(reply).errors.expect("the field that broke a rule");
    assert_eq!(errors.entries().len(), 1);
    assert!(!errors.contains_key("email"));
    assert_eq!(errors.get("username"), Some(&vec!["Username cannot be empty".to_string()]));
}

#[test]
fn post_with_valid_input_creates_the_user() {
    let mut use_case = UserUseCase::new(InMemoryUserRepository::new());
    let reply = create_user(request("alice", "alice@example.com"), &mut use_case);
    assert_eq!(reply.status, 201);
    let body = success(reply);
    assert_eq!(body.status, "success");
    assert_eq!(body.message, "User created successfully");
    let user = body.data.expect("the created user");
    assert_eq!(user.id, 1);
    assert_eq!(user.username, "alice");
    assert_eq!(user.email, "alice@example.com");
}

#[test]
fn get_of_an_id_never_inserted_is_not_found() {
    let use_case = UserUseCase::new(InMemoryUserRepository::new());
    let reply = get_user(42, &use_case);
    assert_eq!(reply.status, 404);
    let body = failure(reply);
    assert_eq!(body.status, "error");
    assert_eq!(body.message, "User not found");
    assert!(body.errors.is_none());
}

#[test]
fn get_of_a_created_user_finds_it() {
    let mut use_case = UserUseCase::new(InMemoryUserRepository::new());
    let created = success(create_user(request("alice", "alice@example.com"), &mut use_case))
        .data
        .expect("the created user");
    let reply = get_user(created.id, &use_case);
    assert_eq!(reply.status, 200);
    let body = success(reply);
    assert_eq!(body.status, "success");
    assert_eq!(body.message, "User found");
    let found = body.data.expect("the user that was stored");
    assert_eq!(found.id, created.id);
    assert_eq!(found.username, "alice");
    assert_eq!(found.email, "alice@example.com");
}

#[test]
fn get_of_id_zero_or_below_is_not_found() {
    let mut use_case = UserUseCase::new(InMemoryUserRepository::new());
    create_user(request("alice", "alice@example.com"), &mut use_case);
    assert_eq!(get_user(0, &use_case).status, 404);
    assert_eq!(get_user(-1, &use_case).status, 404);
    assert_eq!(get_user(2, &use_case).status, 404);
    assert_eq!(get_user(1, &use_case).status, 200);
}

#[test]
fn created_reply_reports_a_store_failure_as_500() {
    let reply = created_reply(Err(AppError::DatabaseError("connection refused".to_string())));
    assert_eq!(reply.status, 500);
    let body = failure(reply);
    assert_eq!(body.message, "Database error occurred");
    let errors = body.errors.expect("the store's diagnostic");
    assert_eq!(errors.entries().len(), 1);
    assert_eq!(errors.get("database"), Some(&vec!["connection refused".to_string()]));
}

#[test]
fn created_reply_wraps_the_user_with_201() {
    let user = User { id: 7, username: "carol".to_string(), email: "c@example.com".to_string() };
    let reply = created_reply(Ok(user));
    assert_eq!(reply.status, 201);
    let body = success(reply);
    assert_eq!(body.message, "User created successfully");
    assert_eq!(body.data.expect("the payload").id, 7);
}

#[test]
fn found_reply_wraps_the_user_with_200() {
    let user = User { id: 3, username: "dave".to_string(), email: "d@example.com".to_string() };
    let reply = found_reply(Ok(user));
    assert_eq!(reply.status, 200);
    let body = success(reply);
    assert_eq!(body.status, "success");
    assert_eq!(body.message, "User found");
    let found = body.data.expect("the payload");
    assert_eq!(found.id, 3);
    assert_eq!(found.username, "dave");
    assert_eq!(found.email, "d@example.com");
}

#[test]
fn found_reply_reports_not_found_as_404() {
    let reply = found_reply(Err(AppError::NotFound));
    assert_eq!(reply.status, 404);
    let body = failure(reply);
    assert_eq!(body.message, "User not found");
    assert!(body.errors.is_none());
}

#[test]
fn every_reply_carries_data_or_is_an_error_never_both() {
    let mut use_case = UserUseCase::new(InMemoryUserRepository::new());
    let replies = vec![
        create_user(request("", "bad"), &mut use_case),
        create_user(request("alice", "alice@example.com"), &mut use_case),
        get_user(1, &use_case),
        get_user(2, &use_case),
        created_reply(Err(AppError::DatabaseError("down".to_string()))),
        found_reply(Err(AppError::InternalServerError)),
    ];
    for reply in replies {
        match reply.body {
            Envelope::Success(body) => {
                assert_eq!(body.status, "success");
                assert!(body.data.is_some());
                assert!(reply.status == 200 || reply.status == 201);
            },
            Envelope::Failure(body) => {
                assert_eq!(body.status, "error");
                assert!(reply.status >= 400);
            },
        }
    }
}
