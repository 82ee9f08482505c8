//! Templates for the `controllers` module of a generated project.
use vstd::prelude::*;

verus! {

/// The text of the controllers module root of the generated project.
pub open spec fn mod_rs_text() -> Seq<char> {
    (r#"pub mod app;

// Re-export commonly used items
pub use app::App;"#)@
}

/// Returns the controllers module root of the generated project.
pub fn mod_rs() -> (r: &'static str)
    ensures
        r@ == mod_rs_text(),
{
    r#"pub mod app;

// Re-export commonly used items
pub use app::App;"#
}

/// The text of the application controller source of the generated project.
pub open spec fn app_rs_text() -> Seq<char> {
    (r#"use crate::models::User;
use crate::utils::{Config, info};

pub struct App {
    pub config: Config,
    pub users: Vec<User>,
}

impl App {
    pub fn new(config: Config) -> Self {
        info("Initializing application");
        Self {
            config,
            users: Vec::new(),
        }
    }
    
    pub fn add_user(&mut self, user: User) {
        self.users.push(user);
        info(&format!("Added user: {}", user.display()));
    }
    
    pub fn run(&self) {
        println!("Running {} with {} users", self.config.get_full_name(), self.users.len());
        for user in &self.users {
            println!("- {}", user.display());
        }
    }
}"#)@
}

/// Returns the application controller source of the generated project.
pub fn app_rs() -> (r: &'static str)
    ensures
        r@ == app_rs_text(),
{
    r#"use crate::models::User;
use crate::utils::{Config, info};

pub struct App {
    pub config: Config,
    pub users: Vec<User>,
}

impl App {
    pub fn new(config: Config) -> Self {
        info("Initializing application");
        Self {
            config,
            users: Vec::new(),
        }
    }
    
    pub fn add_user(&mut self, user: User) {
        self.users.push(user);
        info(&format!("Added user: {}", user.display()));
    }
    
    pub fn run(&self) {
        println!("Running {} with {} users", self.config.get_full_name(), self.users.len());
        for user in &self.users {
            println!("- {}", user.display());
        }
    }
}"#
}

} // verus!
