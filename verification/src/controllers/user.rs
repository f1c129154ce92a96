//! The rules of the user endpoints: how a new user is read from a request
//! body, which error each failure gives, and what a client is answered.
use vstd::prelude::*;
use vstd::utf8::{decode_utf8, valid_utf8};
use crate::helpers::json_body::{
    json_accepts, json_member_display, json_member_text, json_parses, utf8_text, BodyError,
};
use crate::models::user::{GetUser, SetUser};

verus! {

/// The key of a user in a request path.
#[derive(Debug, Clone, Copy, PartialEq, Eq, Structural)]
pub struct UserIdentifier {
    pub id: u32,
}

/// Why a user request failed.
#[derive(Debug, Clone, Copy, PartialEq, Eq, Structural)]
pub enum UserError {
    UserNotFound,
    UserUpdateFailure,
    UserCreationFailure,
    BadUserRequest,
}

impl UserError {
    /// The HTTP status of the answer: 404 Not Found, 424 Failed Dependency
    /// for a failed update or creation, 400 Bad Request.
    pub fn status_code(&self) -> (code: u16)
        ensures
            code == (match *self {
                UserError::UserNotFound => 404u16,
                UserError::UserUpdateFailure => 424u16,
                UserError::UserCreationFailure => 424u16,
                UserError::BadUserRequest => 400u16,
            }),
    {
        match self {
            UserError::UserNotFound => 404,
            UserError::UserUpdateFailure => 424,
            UserError::UserCreationFailure => 424,
            UserError::BadUserRequest => 400,
        }
    }

    /// The text of the answer: the name of the error.
    pub fn to_string(&self) -> (text: String)
        ensures
            text@ == (match *self {
                UserError::UserNotFound => "UserNotFound"@,
                UserError::UserUpdateFailure => "UserUpdateFailure"@,
                UserError::UserCreationFailure => "UserCreationFailure"@,
                UserError::BadUserRequest => "BadUserRequest"@,
            }),
    {
        match self {
            UserError::UserNotFound => String::from_str("UserNotFound"),
            UserError::UserUpdateFailure => String::from_str("UserUpdateFailure"),
            UserError::UserCreationFailure => String::from_str("UserCreationFailure"),
            UserError::BadUserRequest => String::from_str("BadUserRequest"),
        }
    }
}

/// The answer to a request for a user: the user read, or `UserNotFound`.
pub fn get_user(found: Result<GetUser, ()>) -> (answer: Result<GetUser, UserError>)
    ensures
        answer == (match found {
            Ok(user) => Ok(user),
            Err(_) => Err(UserError::UserNotFound),
        }),
{
    match found {
        Ok(user) => Ok(user),
        Err(_) => Err(UserError::UserNotFound),
    }
}

/// The user that a JSON text asks to create: the members `username`,
/// `email` and `password` as they are written out.
pub fn new_user_from_text(text: &str) -> (user: Result<SetUser, BodyError>)
    ensures
        !json_accepts(text@) ==> user == Err::<SetUser, BodyError>(BodyError::NotJson),
        json_accepts(text@) ==> (user matches Ok(u) && {
            &&& u.username@ == json_member_display(text@, "username"@)
            &&& u.email@ == json_member_display(text@, "email"@)
            &&& u.password@ == json_member_display(text@, "password"@)
        }),
{
    if !json_parses(text) {
        return Err(BodyError::NotJson);
    }
    Ok(SetUser {
        username: json_member_text(text, "username"),
        email: json_member_text(text, "email"),
        password: json_member_text(text, "password"),
    })
}

/// The user that a request body asks to create: the body must be UTF-8,
/// and its text is read as `new_user_from_text` reads it.
pub fn new_user_from_body(body: &[u8]) -> (user: Result<SetUser, BodyError>)
    ensures
        !valid_utf8(body@) ==> user == Err::<SetUser, BodyError>(BodyError::NotUtf8),
        valid_utf8(body@) ==> {
            let text = decode_utf8(body@);
            &&& !json_accepts(text) ==> user == Err::<SetUser, BodyError>(BodyError::NotJson)
            &&& json_accepts(text) ==> (user matches Ok(u) && {
                &&& u.username@ == json_member_display(text, "username"@)
                &&& u.email@ == json_member_display(text, "email"@)
                &&& u.password@ == json_member_display(text, "password"@)
            })
        },
{
    match utf8_text(body) {
        None => Err(BodyError::NotUtf8),
        Some(text) => new_user_from_text(text),
    }
}

/// The answer to a request that created a user: what the insert gave, or
/// `UserCreationFailure` when it failed.
pub fn new_user_reply(stored: Result<Vec<String>, ()>) -> (answer: Result<Vec<String>, UserError>)
    ensures
        answer == (match stored {
            Ok(rows) => Ok(rows),
            Err(_) => Err(UserError::UserCreationFailure),
        }),
{
    match stored {
        Ok(rows) => Ok(rows),
        Err(_) => Err(UserError::UserCreationFailure),
    }
}

} // verus!
