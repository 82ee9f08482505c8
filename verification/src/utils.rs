//! Templates for the `utils` module of a generated project.
use vstd::prelude::*;

verus! {

/// The text of the utils module root of the generated project.
pub open spec fn mod_rs_text() -> Seq<char> {
    (r#"pub mod config;
pub mod logger;

// Re-export commonly used items
pub use config::Config;
pub use logger::{info, error, success};"#)@
}

/// Returns the utils module root of the generated project.
pub fn mod_rs() -> (r: &'static str)
    ensures
        r@ == mod_rs_text(),
{
    r#"pub mod config;
pub mod logger;

// Re-export commonly used items
pub use config::Config;
pub use logger::{info, error, success};"#
}

/// The text of the configuration loader source of the generated project.
pub open spec fn config_rs_text() -> Seq<char> {
    (r#"use serde::{Deserialize, Serialize};
use std::fs;
use std::path::Path;
use anyhow::Result;

#[derive(Debug, Serialize, Deserialize)]
pub struct Config {
    pub name: String,
    pub version: String,
    pub description: String,
}

impl Config {
    pub fn load(path: impl AsRef<Path>) -> Result<Self> {
        let content = fs::read_to_string(path)?;
        let config: Config = serde_json::from_str(&content)?;
        Ok(config)
    }
    
    pub fn get_full_name(&self) -> String {
        format!("{} v{}", self.name, self.version)
    }
}"#)@
}

/// Returns the configuration loader source of the generated project.
pub fn config_rs() -> (r: &'static str)
    ensures
        r@ == config_rs_text(),
{
    r#"use serde::{Deserialize, Serialize};
use std::fs;
use std::path::Path;
use anyhow::Result;

#[derive(Debug, Serialize, Deserialize)]
pub struct Config {
    pub name: String,
    pub version: String,
    pub description: String,
}

impl Config {
    pub fn load(path: impl AsRef<Path>) -> Result<Self> {
        let content = fs::read_to_string(path)?;
        let config: Config = serde_json::from_str(&content)?;
        Ok(config)
    }
    
    pub fn get_full_name(&self) -> String {
        format!("{} v{}", self.name, self.version)
    }
}"#
}

/// The text of the logging helper source of the generated project.
pub open spec fn logger_rs_text() -> Seq<char> {
    (r#"pub fn info(message: &str) {
    println!("[INFO] {}", message);
}

pub fn error(message: &str) {
    eprintln!("[ERROR] {}", message);
}

pub fn success(message: &str) {
    println!("[SUCCESS] {}", message);
}"#)@
}

/// Returns the logging helper source of the generated project.
pub fn logger_rs() -> (r: &'static str)
    ensures
        r@ == logger_rs_text(),
{
    r#"pub fn info(message: &str) {
    println!("[INFO] {}", message);
}

pub fn error(message: &str) {
    eprintln!("[ERROR] {}", message);
}

pub fn success(message: &str) {
    println!("[SUCCESS] {}", message);
}"#
}

} // verus!
