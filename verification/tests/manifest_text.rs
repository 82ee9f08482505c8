//! The generated package manifest: the project name stands at the marked
//! point and the five fixed dependency declarations are always present.

use bruno_cli::manifest::build_manifest;

#[test]
fn manifest_for_demo_exact() {
    let expected = r#"[package]
name = "demo"
version = "0.1.0"
edition = "2021"

[dependencies]
serde = { version = "1.0", features = ["derive"] }
serde_json = "1.0"
tokio = { version = "1.32", features = ["full"] }
anyhow = "1.0"
thiserror = "1.0"
"#;
    assert_eq!(build_manifest("demo"), expected);
}

#[test]
fn manifest_names_project_at_marked_point() {
    let m = build_manifest("demo");
    assert!(m.starts_with("[package]\nname = \"demo\"\n"));
}

#[test]
fn manifest_names_project_exactly_once() {
    let m = build_manifest("demo");
    assert_eq!(m.matches("demo").count(), 1);
}

#[test]
fn manifest_declares_serde_with_version_one_point_zero() {
    let m = build_manifest("demo");
    assert!(m.contains("serde = { version = \"1.0\", features = [\"derive\"] }"));
}

#[test]
fn manifest_lists_all_five_dependencies_regardless_of_name() {
    for name in ["demo", "another_project", "x"] {
        let m = build_manifest(name);
        assert!(m.contains("serde = { version = \"1.0\", features = [\"derive\"] }"));
        assert!(m.contains("serde_json = \"1.0\""));
        assert!(m.contains("tokio = { version = \"1.32\", features = [\"full\"] }"));
        assert!(m.contains("anyhow = \"1.0\""));
        assert!(m.contains("thiserror = \"1.0\""));
    }
}

#[test]
fn manifest_embeds_empty_name_between_quotes() {
    let m = build_manifest("");
    assert!(m.starts_with("[package]\nname = \"\"\n"));
}
