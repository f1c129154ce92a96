//! Users, their roles, and the rules for signing up, logging in, checking a
//! session and logging out. Each rule that waits on the database is a step
//! function: it takes what the database answered and says what to ask next.
use vstd::prelude::*;
use crate::controllers::user::UserError;
use crate::helpers::text::same_text;

verus! {

/// What a user may do.
#[derive(Debug, Clone, Copy, PartialEq, Eq, Structural)]
pub enum Role {
    User,
    Member,
    Admin,
}

/// The text that names a role, as it is stored and shown.
pub open spec fn role_name(role: Role) -> Seq<char> {
    match role {
        Role::User => seq!['U', 's', 'e', 'r'],
        Role::Member => seq!['M', 'e', 'm', 'b', 'e', 'r'],
        Role::Admin => seq!['A', 'd', 'm', 'i', 'n'],
    }
}

/// The role that a text names, if it names one.
pub open spec fn role_named(text: Seq<char>) -> Option<Role> {
    if text == role_name(Role::User) {
        Some(Role::User)
    } else if text == role_name(Role::Member) {
        Some(Role::Member)
    } else if text == role_name(Role::Admin) {
        Some(Role::Admin)
    } else {
        None
    }
}

impl Role {
    /// Reads a role from its name; any other text is refused.
    pub fn from_str(input: &str) -> (role: Result<Role, ()>)
        ensures
            role == (match role_named(input@) {
                Some(r) => Ok(r),
                None => Err(()),
            }),
    {
        proof {
            reveal_strlit("User");
            reveal_strlit("Member");
            reveal_strlit("Admin");
        }
        assert("User"@ =~= role_name(Role::User));
        assert("Member"@ =~= role_name(Role::Member));
        assert("Admin"@ =~= role_name(Role::Admin));
        if same_text(input, "User") {
            Ok(Role::User)
        } else if same_text(input, "Member") {
            Ok(Role::Member)
        } else if same_text(input, "Admin") {
            Ok(Role::Admin)
        } else {
            Err(())
        }
    }

    /// The name of the role.
    pub fn to_string(&self) -> (name: String)
        ensures
            name@ == role_name(*self),
    {
        proof {
            reveal_strlit("User");
            reveal_strlit("Member");
            reveal_strlit("Admin");
        }
        match self {
            Role::User => String::from_str("User"),
            Role::Member => String::from_str("Member"),
            Role::Admin => String::from_str("Admin"),
        }
    }
}

/// Law: reading the name of a role gives the role back.
pub proof fn lemma_role_name_read_back(role: Role)
    ensures
        role_named(role_name(role)) == Some(role),
{
    assert(role_name(Role::User).len() == 4);
    assert(role_name(Role::Member).len() == 6);
    assert(role_name(Role::Admin).len() == 5);
}

/// A user record as the database holds it.
#[derive(Debug)]
pub struct User {
    pub id: i32,
    pub username: String,
    pub role: Role,
    pub password: String,
    pub email: String,
    pub login_session: String,
}

/// A user as a client signs up.
#[derive(Debug)]
pub struct SetUser {
    pub username: String,
    pub password: String,
    pub email: String,
}

/// A user as it is shown to a client.
#[derive(Debug)]
pub struct GetUser {
    pub username: String,
    pub role: Role,
    pub login_session: String,
}

/// A login request.
#[derive(Debug)]
pub struct LoginDTO {
    pub username_or_email: String,
    pub password: String,
    pub login_session: String,
}

/// What a client presents to show that it is logged in.
#[derive(Debug)]
pub struct UserToken {
    pub user: String,
    pub login_session: String,
}

/// A write of a user's session text.
#[derive(Debug)]
pub struct SessionUpdate {
    pub username: String,
    pub login_session: String,
}

/// Whether `c` is a lower-case hexadecimal digit.
pub open spec fn is_lower_hex(c: char) -> bool {
    ('0' <= c && c <= '9') || ('a' <= c && c <= 'f')
}

/// Whether `s` could be a session text made by `User::generate_login_session`:
/// a version 4, RFC 4122 variant UUID in lower-case hexadecimal without
/// hyphens, so its digit 12 is `4` and its digit 16 one of `8`, `9`, `a`, `b`.
pub open spec fn is_session_text(s: Seq<char>) -> bool {
    &&& s.len() == 32
    &&& forall|i: int| 0 <= i < s.len() ==> is_lower_hex(#[trigger] s[i])
    &&& s[12] == '4'
    &&& (s[16] == '8' || s[16] == '9' || s[16] == 'a' || s[16] == 'b')
}

#[verifier::external_type_specification]
#[verifier::external_body]
pub struct ExBcryptError(bcrypt::BcryptError);

/// What `bcrypt::verify` answers for a password and a stored hash text:
/// `Some(true)` or `Some(false)` for a match or a mismatch, `None` for its
/// error (a stored text that is no bcrypt hash, or whose cost is out of range).
pub uninterp spec fn bcrypt_verdict(password: Seq<char>, hash: Seq<char>) -> Option<bool>;

/// Calls `bcrypt::verify(password, hash)`. The crate computes the answer from
/// the two texts alone, so the contract names it `bcrypt_verdict`.
#[verifier::external_body]
fn bcrypt_verify(password: &str, hash: &str) -> (outcome: Result<bool, bcrypt::BcryptError>)
    ensures
        outcome is Ok <==> bcrypt_verdict(password@, hash@) is Some,
        outcome matches Ok(v) ==> bcrypt_verdict(password@, hash@) == Some(v),
{
    bcrypt::verify(password, hash)
}

/// Whether `h` is a bcrypt hash text of version 2b and cost 12 that
/// `bcrypt::verify` accepts for `password`.
pub open spec fn is_default_hash_of(password: Seq<char>, h: Seq<char>) -> bool {
    &&& h.len() == 60
    &&& h.subrange(0, 7) == seq!['$', '2', 'b', '$', '1', '2', '$']
    &&& bcrypt_verdict(password, h) == Some(true)
}

/// Calls `bcrypt::hash(password, bcrypt::DEFAULT_COST)`. The salt is random,
/// so the hash text itself is not stated; the contract claims what the
/// crate's source and README show of every hash it returns: it is 60
/// characters long, begins with `$2b$12$` (version 2b, cost 12), and
/// `bcrypt::verify` accepts the password against it. When the hash fails
/// (only when the system gives no random salt) nothing is claimed.
#[verifier::external_body]
fn bcrypt_hash(password: &str) -> (hashed: Result<String, bcrypt::BcryptError>)
    ensures
        hashed matches Ok(h) ==> is_default_hash_of(password@, h@),
{
    bcrypt::hash(password, bcrypt::DEFAULT_COST)
}

/// Where a login stands.
#[derive(Debug)]
pub enum LoginStep {
    /// Waiting for the record of the user who tries to log in.
    AwaitingUser { password: String },
    /// Waiting for the new session of `granted` to be stored.
    AwaitingSession { granted: GetUser },
    /// Nothing left to do.
    Finished,
}

/// What the database answered during a login.
#[derive(Debug)]
pub enum LoginEvent {
    /// The record found by user name or e-mail address, if any.
    UserFetched(Result<User, ()>),
    /// Whether the new session was stored.
    SessionStored(bool),
}

/// What a login asks for next.
#[derive(Debug)]
pub enum LoginAction {
    /// Look up the user whose name or e-mail address is this text.
    FetchUser { username_or_email: String },
    /// Store this session for the user.
    StoreSession(SessionUpdate),
    /// Answer the client.
    Reply(Option<GetUser>),
    /// The stored password text is no bcrypt hash; the service stops the request.
    UnreadableHash,
}

/// Whether a login with `password` passes against the stored password text.
pub open spec fn password_accepted(password: Seq<char>, stored: Seq<char>) -> bool {
    stored.len() > 0 && bcrypt_verdict(password, stored) == Some(true)
}

impl User {
    /// A new session text: a fresh random UUID (version 4) in its simple form.
    /// Calls `uuid::Uuid::new_v4().simple().to_string()`. The text is random;
    /// the contract claims what the crate's source fixes of every such text:
    /// 32 lower-case hexadecimal digits, the version digit `4` at position 12
    /// and a variant digit `8`, `9`, `a` or `b` at position 16. That two calls
    /// give different texts rests on chance and is not claimed.
    #[verifier::external_body]
    pub fn generate_login_session() -> (session: String)
        ensures
            is_session_text(session@),
    {
        uuid::Uuid::new_v4().simple().to_string()
    }

    /// Starts a login: first the user is looked up.
    pub fn login_start(login: LoginDTO) -> (next: (LoginStep, LoginAction))
        ensures
            next.0 == (LoginStep::AwaitingUser { password: login.password }),
            next.1 == (LoginAction::FetchUser { username_or_email: login.username_or_email }),
    {
        (
            LoginStep::AwaitingUser { password: login.password },
            LoginAction::FetchUser { username_or_email: login.username_or_email },
        )
    }

    /// One step of a login. A login succeeds only when the user exists, has a
    /// stored password, the password matches it, and the new session is stored;
    /// the client then gets the user's name and role and that session.
    pub fn login_step(step: LoginStep, event: LoginEvent) -> (next: (LoginStep, LoginAction))
        ensures
            match (step, event) {
                (LoginStep::AwaitingUser { password }, LoginEvent::UserFetched(Ok(user))) => {
                    if password_accepted(password@, user.password@) {
                        &&& next.0 matches LoginStep::AwaitingSession { granted }
                        &&& granted.username@ == user.username@
                        &&& granted.role == user.role
                        &&& is_session_text(granted.login_session@)
                        &&& next.1 matches LoginAction::StoreSession(update)
                        &&& update.username@ == user.username@
                        &&& update.login_session@ == granted.login_session@
                    } else if user.password@.len() > 0 && bcrypt_verdict(password@, user.password@) is None {
                        next == (LoginStep::Finished, LoginAction::UnreadableHash)
                    } else {
                        next == (LoginStep::Finished, LoginAction::Reply(None))
                    }
                },
                (LoginStep::AwaitingSession { granted }, LoginEvent::SessionStored(true)) => {
                    next == (LoginStep::Finished, LoginAction::Reply(Some(granted)))
                },
                _ => next == (LoginStep::Finished, LoginAction::Reply(None)),
            },
    {
        match (step, event) {
            (LoginStep::AwaitingUser { password }, LoginEvent::UserFetched(Ok(user))) => {
                if user.password.unicode_len() == 0 {
                    return (LoginStep::Finished, LoginAction::Reply(None));
                }
                match bcrypt_verify(password.as_str(), user.password.as_str()) {
                    Err(_) => (LoginStep::Finished, LoginAction::UnreadableHash),
                    Ok(false) => (LoginStep::Finished, LoginAction::Reply(None)),
                    Ok(true) => {
                        let login_session = User::generate_login_session();
                        let update = SessionUpdate {
                            username: user.username.clone(),
                            login_session: login_session.clone(),
                        };
                        let granted = GetUser {
                            username: user.username,
                            role: user.role,
                            login_session,
                        };
                        (LoginStep::AwaitingSession { granted }, LoginAction::StoreSession(update))
                    },
                }
            },
            (LoginStep::AwaitingSession { granted }, LoginEvent::SessionStored(true)) => {
                (LoginStep::Finished, LoginAction::Reply(Some(granted)))
            },
            _ => (LoginStep::Finished, LoginAction::Reply(None)),
        }
    }

    /// Whether the token's session is the one stored for its user.
    pub fn is_valid_login_session(user_token: &UserToken, stored: &GetUser) -> (valid: bool)
        ensures
            valid == (stored.login_session@ == user_token.login_session@),
    {
        same_text(stored.login_session.as_str(), user_token.login_session.as_str())
    }

    /// The write that logs `username` out: its session becomes empty.
    pub fn logout(username: String) -> (update: SessionUpdate)
        ensures
            update.username@ == username@,
            update.login_session@.len() == 0,
    {
        SessionUpdate { username, login_session: String::new() }
    }
}

/// Where a sign-up stands.
#[derive(Debug)]
pub enum SignupStep {
    /// Waiting to learn whether the user name is taken.
    AwaitingLookup { user: SetUser },
    /// Waiting for the new user to be stored.
    AwaitingInsert,
    /// Nothing left to do.
    Finished,
}

/// What the database answered during a sign-up.
#[derive(Debug)]
pub enum SignupEvent {
    /// Whether a user of that name was found.
    UsernameTaken(bool),
    /// What storing the new user gave: the statement's rows, or a failure.
    Inserted(Result<Vec<String>, ()>),
}

/// What a sign-up asks for next.
#[derive(Debug)]
pub enum SignupAction {
    /// Look up the user of this name.
    FetchUser { username: String },
    /// Store this user, whose password is already hashed.
    InsertUser(SetUser),
    /// Answer the client.
    Reply(Result<Vec<String>, UserError>),
    /// No salt could be drawn for the hash; the service stops the request.
    HashFailed,
}

impl User {
    /// Starts a sign-up: first the user name is looked up.
    pub fn signup_start(user: SetUser) -> (next: (SignupStep, SignupAction))
        ensures
            next.1 matches SignupAction::FetchUser { username } && username@ == user.username@,
            next.0 == (SignupStep::AwaitingLookup { user }),
    {
        let username = user.username.clone();
        (SignupStep::AwaitingLookup { user }, SignupAction::FetchUser { username })
    }

    /// What a sign-up does once the password of `user` has been hashed: the
    /// user is stored with the hash in place of the password, or, when the
    /// hash failed, the request stops.
    pub fn signup_store(user: SetUser, hashed: Result<String, bcrypt::BcryptError>) -> (next: (
        SignupStep,
        SignupAction,
    ))
        ensures
            match hashed {
                Ok(h) => next == (SignupStep::AwaitingInsert, SignupAction::InsertUser(
                    SetUser { username: user.username, password: h, email: user.email },
                )),
                Err(_) => next == (SignupStep::Finished, SignupAction::HashFailed),
            },
    {
        match hashed {
            Err(_) => (SignupStep::Finished, SignupAction::HashFailed),
            Ok(h) => {
                let stored = SetUser { password: h, ..user };
                (SignupStep::AwaitingInsert, SignupAction::InsertUser(stored))
            },
        }
    }

    /// One step of a sign-up. A taken user name is refused; otherwise the user
    /// is stored with its password replaced by a bcrypt hash of it, and the
    /// client gets what the insert gave, or a creation failure.
    pub fn signup_step(step: SignupStep, event: SignupEvent) -> (next: (SignupStep, SignupAction))
        ensures
            match (step, event) {
                (SignupStep::AwaitingLookup { user }, SignupEvent::UsernameTaken(false)) => {
                    ||| next == (SignupStep::Finished, SignupAction::HashFailed)
                    ||| {
                        &&& next.0 == SignupStep::AwaitingInsert
                        &&& next.1 matches SignupAction::InsertUser(stored)
                        &&& stored.username@ == user.username@
                        &&& stored.email@ == user.email@
                        &&& is_default_hash_of(user.password@, stored.password@)
                    }
                },
                (SignupStep::AwaitingInsert, SignupEvent::Inserted(Ok(rows))) => {
                    next == (SignupStep::Finished, SignupAction::Reply(Ok(rows)))
                },
                _ => next == (SignupStep::Finished, SignupAction::Reply(Err(UserError::UserCreationFailure))),
            },
    {
        match (step, event) {
            (SignupStep::AwaitingLookup { user }, SignupEvent::UsernameTaken(false)) => {
                let hashed = bcrypt_hash(user.password.as_str());
                User::signup_store(user, hashed)
            },
            (SignupStep::AwaitingInsert, SignupEvent::Inserted(Ok(rows))) => {
                (SignupStep::Finished, SignupAction::Reply(Ok(rows)))
            },
            _ => (SignupStep::Finished, SignupAction::Reply(Err(UserError::UserCreationFailure))),
        }
    }
}

/// Law: a user who signed up can log in with the password it signed up with:
/// the stored text that sign-up writes (a 60-character `$2b$12$` hash that
/// bcrypt accepts for the password) passes the login check for that password.
pub proof fn lemma_signed_up_password_accepted(password: Seq<char>, stored: Seq<char>)
    requires
        is_default_hash_of(password, stored),
    ensures
        password_accepted(password, stored),
{
}

/// Law: the session that a login grants is the one it stores, so a token
/// that carries the granted session is valid against the stored record.
pub proof fn lemma_granted_session_is_valid(
    update: SessionUpdate,
    granted: GetUser,
    stored: GetUser,
    token: UserToken,
)
    requires
        update.login_session@ == granted.login_session@,
        stored.login_session@ == update.login_session@,
        token.login_session@ == granted.login_session@,
    ensures
        stored.login_session@ == token.login_session@,
{
}

/// Law: after a logout, no session that a login granted is valid any more.
pub proof fn lemma_logout_ends_granted_sessions(
    update: SessionUpdate,
    stored: GetUser,
    token: UserToken,
)
    requires
        update.login_session@.len() == 0,
        stored.login_session@ == update.login_session@,
        is_session_text(token.login_session@),
    ensures
        stored.login_session@ != token.login_session@,
{
}

} // verus!
