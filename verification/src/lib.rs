pub mod github;
pub mod license;
pub mod markdown;
pub mod nodejs;
pub mod readme;
pub mod rust;
pub mod text;

use vstd::prelude::*;

verus! {

/// A failure to parse a manifest; holds the parser's diagnostic line.
pub struct ParseError {
    pub message: String,
}

/// The ecosystems this library can interpret a manifest of.
#[derive(PartialEq, Eq, Structural, Clone, Copy, Debug)]
pub enum ProjectKind {
    NodeJs,
    Rust,
    Unknown,
}

/// Picks the manifest interpreter from which descriptor files are present
/// in the working directory. A Node.js descriptor takes precedence over a
/// Rust one when both exist.
pub fn detect_project_kind(has_package_json: bool, has_cargo_toml: bool) -> (kind: ProjectKind)
    ensures
        kind == (if has_package_json {
            ProjectKind::NodeJs
        } else if has_cargo_toml {
            ProjectKind::Rust
        } else {
            ProjectKind::Unknown
        }),
{
    if has_package_json {
        ProjectKind::NodeJs
    } else if has_cargo_toml {
        ProjectKind::Rust
    } else {
        ProjectKind::Unknown
    }
}

} // verus!
