//! Templates for the `views` module of a generated project.
use vstd::prelude::*;

verus! {

/// The text of the views module root of the generated project.
pub open spec fn mod_rs_text() -> Seq<char> {
    (r#"pub mod ui;

// Re-export commonly used items
pub use ui::{show_welcome_message, show_menu};"#)@
}

/// Returns the views module root of the generated project.
pub fn mod_rs() -> (r: &'static str)
    ensures
        r@ == mod_rs_text(),
{
    r#"pub mod ui;

// Re-export commonly used items
pub use ui::{show_welcome_message, show_menu};"#
}

/// The text of the user-interface helper source of the generated project.
pub open spec fn ui_rs_text() -> Seq<char> {
    (r#"pub fn show_welcome_message(app_name: &str) {
    println!("=============================================");
    println!("  Welcome to {}!", app_name);
    println!("  Created with Bruno CLI");
    println!("=============================================");
}

pub fn show_menu() -> u32 {
    println!("\nMenu:");
    println!("1. Add a user");
    println!("2. List users");
    println!("3. Exit");
    
    // In a real app, you'd get user input here
    println!("Select an option (simulated: 1)");
    1 // Simulated selection
}"#)@
}

/// Returns the user-interface helper source of the generated project.
pub fn ui_rs() -> (r: &'static str)
    ensures
        r@ == ui_rs_text(),
{
    r#"pub fn show_welcome_message(app_name: &str) {
    println!("=============================================");
    println!("  Welcome to {}!", app_name);
    println!("  Created with Bruno CLI");
    println!("=============================================");
}

pub fn show_menu() -> u32 {
    println!("\nMenu:");
    println!("1. Add a user");
    println!("2. List users");
    println!("3. Exit");
    
    // In a real app, you'd get user input here
    println!("Select an option (simulated: 1)");
    1 // Simulated selection
}"#
}

} // verus!
