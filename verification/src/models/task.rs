//! Task records as they are created and as they are read back.
use vstd::prelude::*;

verus! {

/// Who may see a task.
#[derive(Debug, Clone, Copy, PartialEq, Eq, Structural)]
pub enum AccessMode {
    Public,
    Private,
}

/// A task as a client submits it.
#[derive(Debug)]
pub struct SetTask {
    pub name: String,
    pub variables: String,
    pub functions: String,
    pub tasks: String,
    pub params: Vec<String>,
    pub has_encryption: bool,
    pub description: String,
    pub author_id: String,
    pub access_mode: AccessMode,
}

/// A task as it is read back and shown to a client.
#[derive(Debug)]
pub struct GetTask {
    pub name: String,
    pub params: Vec<String>,
    pub has_encryption: bool,
    pub description: String,
    pub author_id: String,
}

} // verus!
