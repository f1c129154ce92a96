//! The rules of the task endpoints: how a new task is read from a request
//! body, which error each failure gives, and what a client is answered.
use vstd::prelude::*;
use vstd::utf8::{decode_utf8, valid_utf8};
use crate::helpers::json_body::{
    json_accepts, json_member_bool, json_member_display, json_member_flag, json_member_items,
    json_member_list, json_member_text, json_parses, utf8_text, BodyError,
};
use crate::helpers::text::texts;
use crate::models::task::{AccessMode, GetTask, SetTask};

verus! {

/// The key of a task in a request path.
#[derive(Debug)]
pub struct TaskIdentifier {
    pub name: String,
}

/// Why a task request failed.
#[derive(Debug, Clone, Copy, PartialEq, Eq, Structural)]
pub enum TaskError {
    TaskNotFound,
    TaskUpdateFailure,
    TaskCreationFailure,
    BadTaskRequest,
}

impl TaskError {
    /// The HTTP status of the answer: 404 Not Found, 424 Failed Dependency
    /// for a failed update or creation, 400 Bad Request.
    pub fn status_code(&self) -> (code: u16)
        ensures
            code == (match *self {
                TaskError::TaskNotFound => 404u16,
                TaskError::TaskUpdateFailure => 424u16,
                TaskError::TaskCreationFailure => 424u16,
                TaskError::BadTaskRequest => 400u16,
            }),
    {
        match self {
            TaskError::TaskNotFound => 404,
            TaskError::TaskUpdateFailure => 424,
            TaskError::TaskCreationFailure => 424,
            TaskError::BadTaskRequest => 400,
        }
    }

    /// The text of the answer: the name of the error.
    pub fn to_string(&self) -> (text: String)
        ensures
            text@ == (match *self {
                TaskError::TaskNotFound => "TaskNotFound"@,
                TaskError::TaskUpdateFailure => "TaskUpdateFailure"@,
                TaskError::TaskCreationFailure => "TaskCreationFailure"@,
                TaskError::BadTaskRequest => "BadTaskRequest"@,
            }),
    {
        match self {
            TaskError::TaskNotFound => String::from_str("TaskNotFound"),
            TaskError::TaskUpdateFailure => String::from_str("TaskUpdateFailure"),
            TaskError::TaskCreationFailure => String::from_str("TaskCreationFailure"),
            TaskError::BadTaskRequest => String::from_str("BadTaskRequest"),
        }
    }
}

/// The answer to a request for a task: the first task read, or
/// `TaskNotFound` when there is none.
pub fn get_task(found: Vec<GetTask>) -> (answer: Result<GetTask, TaskError>)
    ensures
        answer == (if found@.len() > 0 {
            Ok(found@[0])
        } else {
            Err(TaskError::TaskNotFound)
        }),
{
    let mut found = found;
    if found.len() == 0 {
        Err(TaskError::TaskNotFound)
    } else {
        Ok(found.swap_remove(0))
    }
}

/// The task that a JSON text asks to create: the members `name`,
/// `variables`, `functions`, `tasks` and `description` as they are written
/// out, each item of `params`, and `has_encryption`, which must be a
/// boolean. The author is `temp` and the task is public.
pub fn new_task_from_text(text: &str) -> (task: Result<SetTask, BodyError>)
    ensures
        !json_accepts(text@) ==> task == Err::<SetTask, BodyError>(BodyError::NotJson),
        json_accepts(text@) && json_member_bool(text@, "has_encryption"@) is None ==> task == Err::<
            SetTask,
            BodyError,
        >(BodyError::FlagNotBoolean),
        json_accepts(text@) && json_member_bool(text@, "has_encryption"@) is Some ==> (
        task matches Ok(t) && {
            &&& t.name@ == json_member_display(text@, "name"@)
            &&& Some(t.has_encryption) == json_member_bool(text@, "has_encryption"@)
            &&& t.variables@ == json_member_display(text@, "variables"@)
            &&& t.functions@ == json_member_display(text@, "functions"@)
            &&& t.tasks@ == json_member_display(text@, "tasks"@)
            &&& texts(t.params@) == json_member_items(text@, "params"@)
            &&& t.description@ == json_member_display(text@, "description"@)
            &&& t.author_id@ == "temp"@
            &&& t.access_mode == AccessMode::Public
        }),
{
    if !json_parses(text) {
        return Err(BodyError::NotJson);
    }
    let has_encryption = match json_member_flag(text, "has_encryption") {
        Some(flag) => flag,
        None => return Err(BodyError::FlagNotBoolean),
    };
    Ok(SetTask {
        name: json_member_text(text, "name"),
        has_encryption,
        variables: json_member_text(text, "variables"),
        functions: json_member_text(text, "functions"),
        tasks: json_member_text(text, "tasks"),
        params: json_member_list(text, "params"),
        description: json_member_text(text, "description"),
        author_id: String::from_str("temp"),
        access_mode: AccessMode::Public,
    })
}

/// The task that a request body asks to create: the body must be UTF-8,
/// and its text is read as `new_task_from_text` reads it.
pub fn new_task_from_body(body: &[u8]) -> (task: Result<SetTask, BodyError>)
    ensures
        !valid_utf8(body@) ==> task == Err::<SetTask, BodyError>(BodyError::NotUtf8),
        valid_utf8(body@) ==> {
            let text = decode_utf8(body@);
            &&& !json_accepts(text) ==> task == Err::<SetTask, BodyError>(BodyError::NotJson)
            &&& json_accepts(text) && json_member_bool(text, "has_encryption"@) is None ==> task
                == Err::<SetTask, BodyError>(BodyError::FlagNotBoolean)
            &&& json_accepts(text) && json_member_bool(text, "has_encryption"@) is Some ==> (
            task matches Ok(t) && {
                &&& t.name@ == json_member_display(text, "name"@)
                &&& Some(t.has_encryption) == json_member_bool(text, "has_encryption"@)
                &&& t.variables@ == json_member_display(text, "variables"@)
                &&& t.functions@ == json_member_display(text, "functions"@)
                &&& t.tasks@ == json_member_display(text, "tasks"@)
                &&& texts(t.params@) == json_member_items(text, "params"@)
                &&& t.description@ == json_member_display(text, "description"@)
                &&& t.author_id@ == "temp"@
                &&& t.access_mode == AccessMode::Public
            })
        },
{
    match utf8_text(body) {
        None => Err(BodyError::NotUtf8),
        Some(text) => new_task_from_text(text),
    }
}

/// The answer to a request that created a task: what the insert gave, or
/// `TaskCreationFailure` when it failed.
pub fn new_task_reply(stored: Result<Vec<String>, ()>) -> (answer: Result<Vec<String>, TaskError>)
    ensures
        answer == (match stored {
            Ok(rows) => Ok(rows),
            Err(_) => Err(TaskError::TaskCreationFailure),
        }),
{
    match stored {
        Ok(rows) => Ok(rows),
        Err(_) => Err(TaskError::TaskCreationFailure),
    }
}

} // verus!
