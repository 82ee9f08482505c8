//! The materialization plan: exactly the fixed file set, in order, each
//! entry carrying its catalog content.

use bruno_cli::plan::project_files;
use bruno_cli::templates;

#[test]
fn plan_lists_exactly_the_fixed_file_set() {
    let files = project_files();
    let paths: Vec<&str> = files.iter().map(|f| f.rel_path).collect();
    assert_eq!(
        paths,
        vec!["src/lib.rs", "src/main.rs", ".env.example", "README.md", ".gitignore",
            "bruno.json"],
    );
}

#[test]
fn plan_paths_are_pairwise_distinct() {
    let files = project_files();
    for i in 0..files.len() {
        for j in 0..files.len() {
            if i != j {
                assert_ne!(files[i].rel_path, files[j].rel_path);
            }
        }
    }
}

#[test]
fn plan_contents_match_the_catalog() {
    let files = project_files();
    assert_eq!(files[0].content, templates::lib_rs());
    assert_eq!(files[1].content, templates::main_rs());
    assert_eq!(files[2].content, templates::env());
    assert_eq!(files[3].content, templates::readme_md());
    assert_eq!(files[4].content, templates::gitignore());
    assert_eq!(files[5].content, templates::bruno_json());
}

#[test]
fn readme_entry_has_the_catalog_readme_content() {
    let files = project_files();
    let readme = files.iter().find(|f| f.rel_path == "README.md").unwrap();
    assert_eq!(
        readme.content,
        "# Bruno Project\n\nA project created with Bruno CLI.\n\n## Getting Started\n\n```\ncargo build\ncargo run\n```",
    );
}
