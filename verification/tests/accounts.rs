use automation::controllers::user::UserError;
use automation::models::user::{
    GetUser, LoginAction, LoginDTO, LoginEvent, LoginStep, Role, SetUser, SignupAction, SignupEvent,
    SignupStep, User, UserToken,
};

fn is_session_text(s: &str) -> bool {
    let chars: Vec<char> = s.chars().collect();
    chars.len() == 32
        && chars.iter().all(|c| c.is_ascii_digit() || ('a'..='f').contains(c))
        && chars[12] == '4'
        && ['8', '9', 'a', 'b'].contains(&chars[16])
}

fn stored_user(password: &str) -> User {
    User {
        id: 1,
        username: "ann".to_string(),
        role: Role::Member,
        password: password.to_string(),
        email: "ann@example.org".to_string(),
        login_session: String::new(),
    }
}

fn awaiting_user(password: &str) -> LoginStep {
    let (step, action) = User::login_start(LoginDTO {
        username_or_email: "ann@example.org".to_string(),
        password: password.to_string(),
        login_session: String::new(),
    });
    match action {
        LoginAction::FetchUser { username_or_email } => assert_eq!(username_or_email, "ann@example.org"),
        other => panic!("unexpected action {:?}", other),
    }
    step
}

/// Signs `password` up and returns the stored hash.
fn signed_up_hash(password: &str) -> String {
    let (step, action) = User::signup_start(SetUser {
        username: "ann".to_string(),
        password: password.to_string(),
        email: "ann@example.org".to_string(),
    });
    match action {
        SignupAction::FetchUser { username } => assert_eq!(username, "ann"),
        other => panic!("unexpected action {:?}", other),
    }
    let (step, action) = User::signup_step(step, SignupEvent::UsernameTaken(false));
    assert!(matches!(step, SignupStep::AwaitingInsert));
    let stored = match action {
        SignupAction::InsertUser(stored) => stored,
        other => panic!("unexpected action {:?}", other),
    };
    assert_eq!(stored.username, "ann");
    assert_eq!(stored.email, "ann@example.org");
    assert_eq!(stored.password.len(), 60);
    assert!(stored.password.starts_with("$2b$12$"));
    assert_ne!(stored.password, password);
    stored.password
}

#[test]
fn role_names_read_back() {
    for role in [Role::User, Role::Member, Role::Admin] {
        assert_eq!(Role::from_str(&role.to_string()), Ok(role));
    }
    assert_eq!(Role::User.to_string(), "User");
    assert_eq!(Role::Member.to_string(), "Member");
    assert_eq!(Role::Admin.to_string(), "Admin");
    assert_eq!(Role::from_str("admin"), Err(()));
    assert_eq!(Role::from_str(""), Err(()));
    assert_eq!(Role::from_str("Admin "), Err(()));
}

#[test]
fn sessions_are_fresh_hex_texts() {
    let a = User::generate_login_session();
    let b = User::generate_login_session();
    assert!(is_session_text(&a));
    assert!(is_session_text(&b));
    assert_ne!(a, b);
}

#[test]
fn signed_up_user_logs_in() {
    let hash = signed_up_hash("hunter2");
    let (step, action) = User::login_step(awaiting_user("hunter2"), LoginEvent::UserFetched(Ok(stored_user(&hash))));
    let update = match action {
        LoginAction::StoreSession(update) => update,
        other => panic!("unexpected action {:?}", other),
    };
    assert_eq!(update.username, "ann");
    assert!(is_session_text(&update.login_session));
    let (step, action) = User::login_step(step, LoginEvent::SessionStored(true));
    assert!(matches!(step, LoginStep::Finished));
    let granted = match action {
        LoginAction::Reply(Some(granted)) => granted,
        other => panic!("unexpected action {:?}", other),
    };
    assert_eq!(granted.username, "ann");
    assert_eq!(granted.role, Role::Member);
    assert_eq!(granted.login_session, update.login_session);
    let record = GetUser { username: "ann".to_string(), role: Role::Member, login_session: update.login_session.clone() };
    let token = UserToken { user: "ann".to_string(), login_session: granted.login_session.clone() };
    assert!(User::is_valid_login_session(&token, &record));
}

#[test]
fn login_refusals() {
    let hash = signed_up_hash("hunter2");
    let (_, action) = User::login_step(awaiting_user("wrong"), LoginEvent::UserFetched(Ok(stored_user(&hash))));
    assert!(matches!(action, LoginAction::Reply(None)));
    let (_, action) = User::login_step(awaiting_user("hunter2"), LoginEvent::UserFetched(Err(())));
    assert!(matches!(action, LoginAction::Reply(None)));
    let (_, action) = User::login_step(awaiting_user(""), LoginEvent::UserFetched(Ok(stored_user(""))));
    assert!(matches!(action, LoginAction::Reply(None)));
    let (_, action) = User::login_step(awaiting_user("x"), LoginEvent::UserFetched(Ok(stored_user("not a hash"))));
    assert!(matches!(action, LoginAction::UnreadableHash));
}

#[test]
fn login_fails_when_session_is_not_stored() {
    let step = LoginStep::AwaitingSession {
        granted: GetUser { username: "ann".to_string(), role: Role::User, login_session: "s".to_string() },
    };
    let (step, action) = User::login_step(step, LoginEvent::SessionStored(false));
    assert!(matches!(step, LoginStep::Finished));
    assert!(matches!(action, LoginAction::Reply(None)));
    let (_, action) = User::login_step(LoginStep::Finished, LoginEvent::SessionStored(true));
    assert!(matches!(action, LoginAction::Reply(None)));
}

#[test]
fn signup_refusals_and_replies() {
    let (step, _) = User::signup_start(SetUser {
        username: "ann".to_string(),
        password: "pw".to_string(),
        email: "e".to_string(),
    });
    let (step, action) = User::signup_step(step, SignupEvent::UsernameTaken(true));
    assert!(matches!(step, SignupStep::Finished));
    assert!(matches!(action, SignupAction::Reply(Err(UserError::UserCreationFailure))));
    let (_, action) = User::signup_step(SignupStep::AwaitingInsert, SignupEvent::Inserted(Ok(vec!["r".to_string()])));
    match action {
        SignupAction::Reply(Ok(rows)) => assert_eq!(rows, vec!["r".to_string()]),
        other => panic!("unexpected action {:?}", other),
    }
    let (_, action) = User::signup_step(SignupStep::AwaitingInsert, SignupEvent::Inserted(Err(())));
    assert!(matches!(action, SignupAction::Reply(Err(UserError::UserCreationFailure))));
}

#[test]
fn logout_clears_the_session() {
    let update = User::logout("ann".to_string());
    assert_eq!(update.username, "ann");
    assert_eq!(update.login_session, "");
    let record = GetUser { username: "ann".to_string(), role: Role::User, login_session: update.login_session };
    let granted = User::generate_login_session();
    let token = UserToken { user: "ann".to_string(), login_session: granted };
    assert!(!User::is_valid_login_session(&token, &record));
}

#[test]
fn signup_store_uses_the_hash_outcome() {
    let user = || SetUser { username: "ann".to_string(), password: "pw".to_string(), email: "e".to_string() };
    let (step, action) = User::signup_store(user(), Ok("hashed".to_string()));
    assert!(matches!(step, SignupStep::AwaitingInsert));
    match action {
        SignupAction::InsertUser(stored) => {
            assert_eq!(stored.username, "ann");
            assert_eq!(stored.password, "hashed");
            assert_eq!(stored.email, "e");
        }
        other => panic!("unexpected action {:?}", other),
    }
    let (step, action) = User::signup_store(user(), Err(bcrypt::BcryptError::CostNotAllowed(3)));
    assert!(matches!(step, SignupStep::Finished));
    assert!(matches!(action, SignupAction::HashFailed));
}
