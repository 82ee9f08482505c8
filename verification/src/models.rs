//! Templates for the `models` module of a generated project.
use vstd::prelude::*;

verus! {

/// The text of the models module root of the generated project.
pub open spec fn mod_rs_text() -> Seq<char> {
    (r#"pub mod user;

// Re-export commonly used items
pub use user::User;"#)@
}

/// Returns the models module root of the generated project.
pub fn mod_rs() -> (r: &'static str)
    ensures
        r@ == mod_rs_text(),
{
    r#"pub mod user;

// Re-export commonly used items
pub use user::User;"#
}

/// The text of the user model source of the generated project.
pub open spec fn user_rs_text() -> Seq<char> {
    (r#"use serde::{Deserialize, Serialize};

#[derive(Debug, Serialize, Deserialize)]
pub struct User {
    pub id: u32,
    pub username: String,
    pub email: String,
}

impl User {
    pub fn new(id: u32, username: String, email: String) -> Self {
        Self { id, username, email }
    }
    
    pub fn display(&self) -> String {
        format!("User(id={}, username={}, email={})", self.id, self.username, self.email)
    }
}"#)@
}

/// Returns the user model source of the generated project.
pub fn user_rs() -> (r: &'static str)
    ensures
        r@ == user_rs_text(),
{
    r#"use serde::{Deserialize, Serialize};

#[derive(Debug, Serialize, Deserialize)]
pub struct User {
    pub id: u32,
    pub username: String,
    pub email: String,
}

impl User {
    pub fn new(id: u32, username: String, email: String) -> Self {
        Self { id, username, email }
    }
    
    pub fn display(&self) -> String {
        format!("User(id={}, username={}, email={})", self.id, self.username, self.email)
    }
}"#
}

} // verus!
