use automation::controllers::task::{get_task, new_task_from_body, new_task_reply, TaskError, TaskIdentifier};
use automation::controllers::user::{get_user, new_user_from_body, new_user_reply, UserError, UserIdentifier};
use automation::helpers::json_body::BodyError;
use automation::models::task::{AccessMode, GetTask};
use automation::models::user::{GetUser, Role};

#[test]
fn task_error_answers() {
    assert_eq!(TaskError::TaskNotFound.status_code(), 404);
    assert_eq!(TaskError::TaskUpdateFailure.status_code(), 424);
    assert_eq!(TaskError::TaskCreationFailure.status_code(), 424);
    assert_eq!(TaskError::BadTaskRequest.status_code(), 400);
    assert_eq!(TaskError::TaskNotFound.to_string(), "TaskNotFound");
    assert_eq!(TaskError::TaskUpdateFailure.to_string(), "TaskUpdateFailure");
    assert_eq!(TaskError::TaskCreationFailure.to_string(), "TaskCreationFailure");
    assert_eq!(TaskError::BadTaskRequest.to_string(), "BadTaskRequest");
}

#[test]
fn user_error_answers() {
    assert_eq!(UserError::UserNotFound.status_code(), 404);
    assert_eq!(UserError::UserUpdateFailure.status_code(), 424);
    assert_eq!(UserError::UserCreationFailure.status_code(), 424);
    assert_eq!(UserError::BadUserRequest.status_code(), 400);
    assert_eq!(UserError::UserNotFound.to_string(), "UserNotFound");
    assert_eq!(UserError::UserUpdateFailure.to_string(), "UserUpdateFailure");
    assert_eq!(UserError::UserCreationFailure.to_string(), "UserCreationFailure");
    assert_eq!(UserError::BadUserRequest.to_string(), "BadUserRequest");
}

#[test]
fn get_task_answers_first_task_or_not_found() {
    let task = |name: &str| GetTask {
        name: name.to_string(),
        params: vec![],
        has_encryption: true,
        description: String::new(),
        author_id: String::new(),
    };
    let found = get_task(vec![task("first"), task("second")]).unwrap();
    assert_eq!(found.name, "first");
    assert_eq!(get_task(vec![]).unwrap_err(), TaskError::TaskNotFound);
    let key = TaskIdentifier { name: "first".to_string() };
    assert_eq!(key.name, "first");
}

#[test]
fn new_task_is_read_from_json() {
    let body = br#"{"name":"settest","has_encryption":false,"variables":{"b":"c"},"functions":"plain","tasks":{"d":"e"},"params":["something","else"],"description":"description"}"#;
    let task = new_task_from_body(body).unwrap();
    assert_eq!(task.name, "settest");
    assert!(!task.has_encryption);
    assert_eq!(task.variables, "{\"b\":\"c\"}");
    assert_eq!(task.functions, "plain");
    assert_eq!(task.tasks, "{\"d\":\"e\"}");
    assert_eq!(task.params, vec!["something".to_string(), "else".to_string()]);
    assert_eq!(task.description, "description");
    assert_eq!(task.author_id, "temp");
    assert_eq!(task.access_mode, AccessMode::Public);
}

#[test]
fn new_task_missing_members() {
    let task = new_task_from_body(br#"{"has_encryption":true,"params":"not a list"}"#).unwrap();
    assert_eq!(task.name, "null");
    assert!(task.has_encryption);
    assert!(task.params.is_empty());
}

#[test]
fn new_task_refused_bodies() {
    assert_eq!(new_task_from_body(&[0xff, 0xfe]).unwrap_err(), BodyError::NotUtf8);
    assert_eq!(new_task_from_body(b"{not json").unwrap_err(), BodyError::NotJson);
    assert_eq!(new_task_from_body(br#"{"name":"x"}"#).unwrap_err(), BodyError::FlagNotBoolean);
    assert_eq!(new_task_from_body(br#"{"has_encryption":"yes"}"#).unwrap_err(), BodyError::FlagNotBoolean);
}

#[test]
fn creation_replies() {
    assert_eq!(new_task_reply(Ok(vec!["r".to_string()])).unwrap(), vec!["r".to_string()]);
    assert_eq!(new_task_reply(Err(())).unwrap_err(), TaskError::TaskCreationFailure);
    assert_eq!(new_user_reply(Ok(vec![])).unwrap(), Vec::<String>::new());
    assert_eq!(new_user_reply(Err(())).unwrap_err(), UserError::UserCreationFailure);
}

#[test]
fn get_user_answers_user_or_not_found() {
    let user = GetUser { username: "ann".to_string(), role: Role::Admin, login_session: "s".to_string() };
    let found = get_user(Ok(user)).unwrap();
    assert_eq!(found.username, "ann");
    assert_eq!(found.role, Role::Admin);
    assert_eq!(get_user(Err(())).unwrap_err(), UserError::UserNotFound);
    assert_eq!(UserIdentifier { id: 3 }.id, 3);
}

#[test]
fn new_user_is_read_from_json() {
    let user = new_user_from_body(br#"{"username":"ann","email":"ann@example.org","password":"pw"}"#).unwrap();
    assert_eq!(user.username, "ann");
    assert_eq!(user.email, "ann@example.org");
    assert_eq!(user.password, "pw");
    assert_eq!(new_user_from_body(&[0xc3]).unwrap_err(), BodyError::NotUtf8);
    assert_eq!(new_user_from_body(b"[1,").unwrap_err(), BodyError::NotJson);
}
