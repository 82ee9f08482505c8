//! The materialization plan: the relative paths and the contents of every
//! file that `init` writes into the new project directory.
use vstd::prelude::*;
use crate::templates;

verus! {

/// One file to create: a path relative to the project root, and the full
/// text to write there.
pub struct TemplateFile {
    /// Path of the file, relative to the project root.
    pub rel_path: &'static str,
    /// The whole content of the file.
    pub content: &'static str,
}

/// The relative paths of the fixed file set, in the order they are written.
pub open spec fn catalog_paths() -> Seq<Seq<char>> {
    seq![
        "src/lib.rs"@,
        "src/main.rs"@,
        ".env.example"@,
        "README.md"@,
        ".gitignore"@,
        "bruno.json"@,
    ]
}

/// The contents of the fixed file set, in the same order as
/// `catalog_paths`.
pub open spec fn catalog_contents() -> Seq<Seq<char>> {
    seq![
        templates::lib_rs_text(),
        templates::main_rs_text(),
        templates::env_text(),
        templates::readme_md_text(),
        templates::gitignore_text(),
        templates::bruno_json_text(),
    ]
}

/// Returns the whole plan: exactly the fixed file set, each entry carrying
/// its catalog content byte for byte.
pub fn project_files() -> (v: Vec<TemplateFile>)
    ensures
        v@.len() == catalog_paths().len(),
        forall|i: int| 0 <= i < v@.len() ==> #[trigger] v@[i].rel_path@ == catalog_paths()[i],
        forall|i: int| 0 <= i < v@.len() ==> #[trigger] v@[i].content@ == catalog_contents()[i],
{
    let mut v: Vec<TemplateFile> = Vec::new();
    v.push(TemplateFile { rel_path: "src/lib.rs", content: templates::lib_rs() });
    v.push(TemplateFile { rel_path: "src/main.rs", content: templates::main_rs() });
    v.push(TemplateFile { rel_path: ".env.example", content: templates::env() });
    v.push(TemplateFile { rel_path: "README.md", content: templates::readme_md() });
    v.push(TemplateFile { rel_path: ".gitignore", content: templates::gitignore() });
    v.push(TemplateFile { rel_path: "bruno.json", content: templates::bruno_json() });
    v
}

/// Any two catalog paths with ordered indices differ: they have different
/// lengths, or they differ at their first character.
proof fn lemma_catalog_paths_differ(k: int, l: int)
    requires
        0 <= k < l < catalog_paths().len(),
    ensures
        catalog_paths()[k] != catalog_paths()[l],
{
    reveal_strlit("src/lib.rs");
    reveal_strlit("src/main.rs");
    reveal_strlit(".env.example");
    reveal_strlit("README.md");
    reveal_strlit(".gitignore");
    reveal_strlit("bruno.json");
    let p = catalog_paths();
    if k == 0 {
        if l == 4 {
            assert(p[0][0] != p[4][0]);
        } else if l == 5 {
            assert(p[0][0] != p[5][0]);
        } else {
            assert(p[0].len() != p[l].len());
        }
    } else if k == 4 {
        assert(p[4][0] != p[5][0]);
    } else {
        assert(p[k].len() != p[l].len());
    }
}

/// No two entries of the fixed file set share a path: materializing the
/// plan produces six distinct files.
pub proof fn lemma_catalog_paths_distinct()
    ensures
        forall|i: int, j: int|
            0 <= i < catalog_paths().len() && 0 <= j < catalog_paths().len() && i != j
                ==> catalog_paths()[i] != catalog_paths()[j],
{
    assert forall|i: int, j: int|
        0 <= i < catalog_paths().len() && 0 <= j < catalog_paths().len() && i != j
            implies catalog_paths()[i] != catalog_paths()[j] by {
        if i < j {
            lemma_catalog_paths_differ(i, j);
        } else {
            lemma_catalog_paths_differ(j, i);
        }
    }
}

} // verus!
