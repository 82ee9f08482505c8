//! The manifest builder: produces the package manifest text of a new
//! project, embedding the project name at one marked point and declaring a
//! fixed list of five dependencies with fixed version constraints.
use vstd::prelude::*;
use vstd::string::StringExecFns;
use crate::text::{contains_text, occurrences, occurs_at};
use crate::text::lemma_unique_occurrence_count;

verus! {

/// The manifest text that precedes the project name.
pub open spec fn manifest_head() -> Seq<char> {
    "[package]\nname = \""@
}

/// The manifest text between the project name and the dependency lines.
pub open spec fn manifest_mid() -> Seq<char> {
    "\"\nversion = \"0.1.0\"\nedition = \"2021\"\n\n[dependencies]\n"@
}

/// The fixed serialization-library dependency declaration.
pub open spec fn dep_serde() -> Seq<char> {
    "serde = { version = \"1.0\", features = [\"derive\"] }"@
}

/// The fixed JSON-value-library dependency declaration.
pub open spec fn dep_serde_json() -> Seq<char> {
    "serde_json = \"1.0\""@
}

/// The fixed async-runtime dependency declaration.
pub open spec fn dep_tokio() -> Seq<char> {
    "tokio = { version = \"1.32\", features = [\"full\"] }"@
}

/// The fixed error-context-library dependency declaration.
pub open spec fn dep_anyhow() -> Seq<char> {
    "anyhow = \"1.0\""@
}

/// The fixed typed-error-library dependency declaration.
pub open spec fn dep_thiserror() -> Seq<char> {
    "thiserror = \"1.0\""@
}

/// A line break.
pub open spec fn newline() -> Seq<char> {
    "\n"@
}

/// The dependency block: the five fixed declarations, each on a line of its
/// own.
pub open spec fn manifest_deps() -> Seq<char> {
    dep_serde() + newline() + dep_serde_json() + newline() + dep_tokio() + newline()
        + dep_anyhow() + newline() + dep_thiserror() + newline()
}

/// The whole manifest text for a project named `name`.
pub open spec fn manifest_text(name: Seq<char>) -> Seq<char> {
    manifest_head() + name + manifest_mid() + manifest_deps()
}

/// Builds the package manifest for a project named `name`.
pub fn build_manifest(name: &str) -> (r: String)
    ensures
        r@ == manifest_text(name@),
{
    let mut s = String::new();
    s.append("[package]\nname = \"");
    s.append(name);
    s.append("\"\nversion = \"0.1.0\"\nedition = \"2021\"\n\n[dependencies]\n");
    s.append("serde = { version = \"1.0\", features = [\"derive\"] }");
    s.append("\n");
    s.append("serde_json = \"1.0\"");
    s.append("\n");
    s.append("tokio = { version = \"1.32\", features = [\"full\"] }");
    s.append("\n");
    s.append("anyhow = \"1.0\"");
    s.append("\n");
    s.append("thiserror = \"1.0\"");
    s.append("\n");
    proof {
        assert(s@ =~= manifest_text(name@));
    }
    s
}

/// The project name stands in the manifest at the marked point, right after
/// the head text.
pub proof fn lemma_name_at_marked_point(name: Seq<char>)
    ensures
        occurs_at(manifest_text(name), name, manifest_head().len() as int),
{
    let full = manifest_text(name);
    let p = manifest_head().len() as int;
    assert(full.subrange(p, p + name.len() as int) =~= name);
}

/// The manifest mentions the project name exactly once: at the marked
/// point. A name that also occurs inside the fixed manifest text (for
/// example one equal to a dependency name or a version string) is excluded
/// by the hypothesis.
pub proof fn lemma_manifest_names_project_once(name: Seq<char>)
    requires
        forall|i: int| occurs_at(manifest_text(name), name, i) ==> i == manifest_head().len(),
    ensures
        occurs_at(manifest_text(name), name, manifest_head().len() as int),
        occurrences(manifest_text(name), name) == 1,
{
    lemma_name_at_marked_point(name);
    lemma_unique_occurrence_count(manifest_text(name), name, manifest_head().len() as int, 0);
}

/// The manifest declares all five fixed dependencies, whatever the project
/// name is.
pub proof fn lemma_manifest_lists_fixed_dependencies(name: Seq<char>)
    ensures
        contains_text(manifest_text(name), dep_serde()),
        contains_text(manifest_text(name), dep_serde_json()),
        contains_text(manifest_text(name), dep_tokio()),
        contains_text(manifest_text(name), dep_anyhow()),
        contains_text(manifest_text(name), dep_thiserror()),
{
    let full = manifest_text(name);
    let base = manifest_head().len() + name.len() + manifest_mid().len();
    let p1 = base as int;
    let p2 = p1 + dep_serde().len() + newline().len();
    let p3 = p2 + dep_serde_json().len() + newline().len();
    let p4 = p3 + dep_tokio().len() + newline().len();
    let p5 = p4 + dep_anyhow().len() + newline().len();
    assert(full.subrange(p1, p1 + dep_serde().len()) =~= dep_serde());
    assert(occurs_at(full, dep_serde(), p1));
    assert(full.subrange(p2, p2 + dep_serde_json().len()) =~= dep_serde_json());
    assert(occurs_at(full, dep_serde_json(), p2));
    assert(full.subrange(p3, p3 + dep_tokio().len()) =~= dep_tokio());
    assert(occurs_at(full, dep_tokio(), p3));
    assert(full.subrange(p4, p4 + dep_anyhow().len()) =~= dep_anyhow());
    assert(occurs_at(full, dep_anyhow(), p4));
    assert(full.subrange(p5, p5 + dep_thiserror().len()) =~= dep_thiserror());
    assert(occurs_at(full, dep_thiserror(), p5));
}

} // verus!
