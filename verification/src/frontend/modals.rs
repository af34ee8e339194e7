//! What the modals hold.

use vstd::prelude::*;

verus! {

/// Warns of a link whose text names another target than it leads to.
#[derive(Debug, Clone)]
pub struct DeceptiveLinkModal {
    pub label: String,
    pub target: String,
}

impl DeceptiveLinkModal {
    /// A warning for a link that shows `label` and leads to `target`.
    pub fn new(label: String, target: String) -> (modal: Self)
        ensures
            modal.label == label,
            modal.target == target,
    {
        Self { label, target }
    }
}

/// Tells of an error that may leave the application unusable.
#[derive(Debug, Clone)]
pub struct ImportantErrorModal {
    pub header: String,
    pub description: String,
}

impl ImportantErrorModal {
    /// A report with the given header and description.
    pub fn new(header: String, description: String) -> (modal: Self)
        ensures
            modal.header == header,
            modal.description == description,
    {
        Self { header, description }
    }
}

/// Asks for a handle and a password.
#[derive(Debug, Clone)]
pub struct LoginModal {
    pub username: String,
    pub password: String,
    /// The password is shown as dots.
    pub password_dots: bool,
    pub error_msg: String,
    /// The fields take input.
    pub interactive: bool,
}

impl LoginModal {
    /// An empty login form that takes input and hides the password.
    pub fn new() -> (modal: Self)
        ensures
            modal.username@.len() == 0,
            modal.password@.len() == 0,
            modal.password_dots,
            modal.error_msg@.len() == 0,
            modal.interactive,
    {
        Self {
            username: String::new(),
            password: String::new(),
            password_dots: true,
            error_msg: String::new(),
            interactive: true,
        }
    }
}

} // verus!
