//! The Node.js manifest interpreter: reads the fields of a parsed
//! `package.json` value and assembles the README document.
use vstd::prelude::*;

verus! {

use vstd::string::StrSliceExecFns;
use vstd::string::StringExecFns;
use crate::ParseError;
use crate::github::GithubWorkflowBadges;
use crate::github::badges_block_of;
use crate::markdown::fenced_js_code_block;
use crate::markdown::fenced_sh_code_block;
use crate::markdown::h1;
use crate::markdown::h1_text;
use crate::markdown::h2;
use crate::markdown::h2_text;
use crate::markdown::js_block_text;
use crate::markdown::sh_block_text;
use crate::readme::Readme;
use crate::readme::Section;
use crate::readme::sections_text;
use crate::text::contains_char;
use crate::text::contains_char_str;
use crate::text::contains_seq;
use crate::text::contains_substr;
use crate::text::ends_with;
use crate::text::ends_with_str;
use crate::text::eq_ignore_ascii_case_seq;
use crate::text::eq_ignore_ascii_case_str;
use crate::text::find_char;
use crate::text::find_index;
use crate::text::lemma_find_index_props;
use crate::text::starts_with;
use crate::text::starts_with_str;
use crate::text::str_eq;
use crate::text::substring;
use crate::text::views_of;

#[verifier::external_type_specification]
#[verifier::external_body]
pub struct ExJsonValue(serde_json::Value);

#[verifier::external_type_specification]
#[verifier::external_body]
pub struct ExJsonError(serde_json::Error);

/// Whether the JSON parser accepts `s` as one document.
pub uninterp spec fn json_parses(s: Seq<char>) -> bool;

/// Relies on serde_json::from_str: parses one JSON document into a generic
/// value; whether the text is accepted depends on the text alone.
#[verifier::external_body]
fn json_from_str(s: &str) -> (r: Result<serde_json::Value, serde_json::Error>)
    ensures
        r is Ok <==> json_parses(s@),
{
    serde_json::from_str(s)
}

/// Relies on serde_json::Error's Display implementation for the diagnostic
/// line shown to the user.
#[verifier::external_body]
fn json_error_message(e: &serde_json::Error) -> String {
    e.to_string()
}

/// Relies on serde_json::Value::get: the member of a JSON object under a
/// key; None for an absent key or any non-object value.
#[verifier::external_body]
fn json_get<'a>(v: &'a serde_json::Value, key: &str) -> Option<&'a serde_json::Value> {
    v.get(key)
}

/// Relies on serde_json::Value::as_str: the text of a JSON string value,
/// None for any other kind of value.
#[verifier::external_body]
fn json_as_str(v: &serde_json::Value) -> Option<String> {
    v.as_str().map(|s| s.to_string())
}

/// Relies on serde_json::Value::as_bool: the contained boolean, None for any
/// other kind of value.
#[verifier::external_body]
fn json_as_bool(v: &serde_json::Value) -> Option<bool> {
    v.as_bool()
}

/// Parses the text of a Node.js manifest into a generic JSON value.
/// Succeeds exactly on the texts the JSON parser accepts.
pub fn parse_package_json(contents: &str) -> (r: Result<serde_json::Value, ParseError>)
    ensures
        r is Ok <==> json_parses(contents@),
{
    match json_from_str(contents) {
        Ok(v) => Ok(v),
        Err(e) => Err(ParseError { message: json_error_message(&e) }),
    }
}

/// A manifest's repository field, reduced to the shapes the normalizer reads.
pub enum RepoRef {
    /// The field held a string.
    Text(String),
    /// The field held any other value; the string `type` and `url` members,
    /// where such members exist.
    Object { type_field: Option<String>, url_field: Option<String> },
}

/// The string member of a JSON object under `key`, if there is one.
fn json_str_field(v: &serde_json::Value, key: &str) -> Option<String> {
    match json_get(v, key) {
        Some(f) => json_as_str(f),
        None => None,
    }
}

/// Reduces a manifest's repository value to the shapes the normalizer reads.
pub fn parse_repository_value(v: &serde_json::Value) -> RepoRef {
    match json_as_str(v) {
        Some(s) => RepoRef::Text(s),
        None => RepoRef::Object {
            type_field: json_str_field(v, "type"),
            url_field: json_str_field(v, "url"),
        },
    }
}

/// The fields a Node.js manifest supplies to the document builder; a field
/// is None where the manifest lacks it or holds it with an unexpected type.
pub struct PackageJson {
    pub name: Option<String>,
    pub private: Option<bool>,
    pub description: Option<String>,
    pub license: Option<String>,
    pub test_script: Option<String>,
    pub repository: Option<RepoRef>,
}

/// Reads the manifest fields this library interprets out of a parsed JSON
/// value; lookups that fail degrade to absent fields, never to an error.
pub fn package_json_of_value(package: &serde_json::Value) -> PackageJson {
    let test_script = match json_get(package, "scripts") {
        Some(scripts) => json_str_field(scripts, "test"),
        None => None,
    };
    let repository = match json_get(package, "repository") {
        Some(r) => Some(parse_repository_value(r)),
        None => None,
    };
    PackageJson {
        name: json_str_field(package, "name"),
        private: json_as_bool_field(package, "private"),
        description: json_str_field(package, "description"),
        license: json_str_field(package, "license"),
        test_script,
        repository,
    }
}

/// The boolean member of a JSON object under `key`, if there is one.
fn json_as_bool_field(v: &serde_json::Value, key: &str) -> Option<bool> {
    match json_get(v, key) {
        Some(f) => json_as_bool(f),
        None => None,
    }
}

/// `u` with a leading `git+` and a trailing `.git` removed.
pub open spec fn strip_git_markers(u: Seq<char>) -> Seq<char> {
    let a = if starts_with(u, "git+"@) {
        u.skip(4)
    } else {
        u
    };
    if ends_with(a, ".git"@) {
        a.take(a.len() - 4)
    } else {
        a
    }
}

/// The text up to the first `/`.
pub open spec fn first_component(s: Seq<char>) -> Seq<char> {
    s.take(find_index(s, '/'))
}

/// The text between the first `/` and the next one, or the end.
pub open spec fn second_component(s: Seq<char>) -> Seq<char> {
    let rest = s.skip(find_index(s, '/') + 1);
    rest.take(find_index(rest, '/'))
}

/// The canonical URL built from the first two `/`-separated components.
pub open spec fn shorthand_url(rest: Seq<char>) -> Seq<char> {
    "https://github.com/"@ + first_component(rest) + "/"@ + second_component(rest)
}

/// The canonical GitHub URL a repository field denotes: a `git`-typed object
/// whose URL names github.com keeps that URL bar its `git+`/`.git` markers;
/// a `github:` shorthand or a bare `owner/repo` string is expanded; anything
/// else yields the empty text.
pub open spec fn github_url_of(repository: Option<RepoRef>) -> Seq<char> {
    match repository {
        Some(RepoRef::Object { type_field: Some(t), url_field: Some(u) }) => {
            if t@ == "git"@ && contains_seq(u@, "github.com"@) {
                strip_git_markers(u@)
            } else {
                Seq::empty()
            }
        },
        Some(RepoRef::Object { type_field: _, url_field: _ }) => Seq::empty(),
        Some(RepoRef::Text(s)) => {
            if starts_with(s@, "github:"@) && contains_char(s@, '/') {
                shorthand_url(s@.skip("github:"@.len() as int))
            } else if !contains_char(s@, ':') && contains_char(s@, '/') {
                shorthand_url(s@)
            } else {
                Seq::empty()
            }
        },
        None => Seq::empty(),
    }
}

/// `https://github.com/<owner>/<repo>` from the first two `/`-separated
/// components of `rest`; later components are ignored.
fn build_shorthand_url(rest: &str) -> (r: String)
    requires
        contains_char(rest@, '/'),
    ensures
        r@ == shorthand_url(rest@),
{
    let n: usize = rest.unicode_len();
    let i = find_char(rest, '/');
    proof {
        lemma_find_index_props(rest@, '/');
        if find_index(rest@, '/') == rest@.len() {
            let w = choose|k: int| 0 <= k < rest@.len() && rest@[k] == '/';
            assert(rest@[w] != '/');
        }
    }
    let owner = substring(rest, 0, i);
    let tail = substring(rest, i + 1, n);
    proof {
        lemma_find_index_props(tail@, '/');
    }
    let j = find_char(tail.as_str(), '/');
    let repo = substring(tail.as_str(), 0, j);
    let mut r = String::from_str("https://github.com/");
    r.append(owner.as_str());
    r.append("/");
    r.append(repo.as_str());
    proof {
        assert(r@ =~= shorthand_url(rest@));
    }
    r
}

/// Normalizes a manifest's repository field to a canonical
/// `https://github.com/<owner>/<repo>` URL, or the empty string where the
/// field denotes no GitHub repository.
pub fn get_github_url(repository: &Option<RepoRef>) -> (r: String)
    ensures
        r@ == github_url_of(*repository),
{
    match repository {
        None => String::new(),
        Some(RepoRef::Object { type_field, url_field }) => match (type_field, url_field) {
            (Some(t), Some(u)) => {
                if str_eq(t.as_str(), "git") && contains_substr(u.as_str(), "github.com") {
                    let n: usize = u.as_str().unicode_len();
                    proof {
                        reveal_strlit("git+");
                        reveal_strlit(".git");
                        assert("git+"@ =~= seq!['g', 'i', 't', '+']);
                        assert(".git"@ =~= seq!['.', 'g', 'i', 't']);
                    }
                    let a: String = if starts_with_str(u.as_str(), "git+") {
                        substring(u.as_str(), 4, n)
                    } else {
                        u.clone()
                    };
                    let m: usize = a.as_str().unicode_len();
                    let b: String = if ends_with_str(a.as_str(), ".git") {
                        substring(a.as_str(), 0, m - 4)
                    } else {
                        a
                    };
                    proof {
                        assert(b@ =~= strip_git_markers(u@));
                    }
                    b
                } else {
                    String::new()
                }
            },
            _ => String::new(),
        },
        Some(RepoRef::Text(s)) => {
            let has_slash = contains_char_str(s.as_str(), '/');
            if starts_with_str(s.as_str(), "github:") && has_slash {
                proof {
                    reveal_strlit("github:");
                    assert("github:"@ =~= seq!['g', 'i', 't', 'h', 'u', 'b', ':']);
                }
                let rest = substring(s.as_str(), 7, s.as_str().unicode_len());
                proof {
                    let w = choose|k: int| 0 <= k < s@.len() && s@[k] == '/';
                    assert(s@.subrange(0, 7) == "github:"@);
                    if w < 7 {
                        assert(s@[w] == "github:"@[w]);
                        assert(false);
                    }
                    assert(rest@[w - 7] == s@[w]);
                    assert(contains_char(rest@, '/'));
                }
                build_shorthand_url(rest.as_str())
            } else if !contains_char_str(s.as_str(), ':') && has_slash {
                build_shorthand_url(s.as_str())
            } else {
                String::new()
            }
        },
    }
}

/// A repository object typed `git` whose URL names github.com normalizes to
/// that URL with its `git+` prefix and `.git` suffix stripped, and is
/// otherwise returned unchanged.
pub proof fn lemma_normalize_object_form(repository: Option<RepoRef>, t: String, u: String)
    requires
        repository == Some(RepoRef::Object { type_field: Some(t), url_field: Some(u) }),
        t@ == "git"@,
        contains_seq(u@, "github.com"@),
    ensures
        github_url_of(repository) == strip_git_markers(u@),
        !starts_with(u@, "git+"@) && !ends_with(u@, ".git"@) ==> github_url_of(repository) == u@,
{
}

/// A `github:<owner>/<repo>[/...]` shorthand normalizes to exactly
/// `https://github.com/<owner>/<repo>`; any components beyond the second
/// are ignored.
pub proof fn lemma_normalize_prefixed_shorthand(repository: Option<RepoRef>, s: String)
    requires
        repository == Some(RepoRef::Text(s)),
        starts_with(s@, "github:"@),
        contains_char(s@, '/'),
    ensures
        github_url_of(repository) == "https://github.com/"@ + first_component(s@.skip(7)) + "/"@
            + second_component(s@.skip(7)),
{
    reveal_strlit("github:");
}

/// An `<owner>/<repo>[/...]` string holding no colon normalizes to exactly
/// `https://github.com/<owner>/<repo>`.
pub proof fn lemma_normalize_bare_shorthand(repository: Option<RepoRef>, s: String)
    requires
        repository == Some(RepoRef::Text(s)),
        !contains_char(s@, ':'),
        contains_char(s@, '/'),
    ensures
        github_url_of(repository) == "https://github.com/"@ + first_component(s@) + "/"@
            + second_component(s@),
{
    reveal_strlit("github:");
    assert("github:"@.len() == 7);
    if starts_with(s@, "github:"@) {
        assert(s@[6] == "github:"@[6]);
        assert(s@[6] == ':');
        assert(false);
    }
}

/// A repository value matching none of the recognized forms normalizes to
/// the empty text.
pub proof fn lemma_normalize_unrecognized(repository: Option<RepoRef>)
    requires
        (match repository {
            Some(RepoRef::Object { type_field, url_field }) => !((type_field matches Some(t)
                && t@ == "git"@) && (url_field matches Some(u) && contains_seq(
                u@,
                "github.com"@,
            ))),
            Some(RepoRef::Text(s)) => !(starts_with(s@, "github:"@) && contains_char(s@, '/'))
                && !(!contains_char(s@, ':') && contains_char(s@, '/')),
            None => true,
        }),
    ensures
        github_url_of(repository) == Seq::<char>::empty(),
{
}

/// The placeholder shown where a manifest names no package.
pub open spec fn placeholder_name() -> Seq<char> {
    "<PACKAGE NAME>"@
}

/// The text of an optional field, empty where the field is absent.
pub open spec fn opt_text(o: Option<String>) -> Seq<char> {
    match o {
        Some(s) => s@,
        None => Seq::empty(),
    }
}

pub open spec fn node_name_of(pkg: PackageJson) -> Seq<char> {
    match pkg.name {
        Some(n) => n@,
        None => placeholder_name(),
    }
}

pub open spec fn node_private_of(pkg: PackageJson) -> bool {
    match pkg.private {
        Some(b) => b,
        None => false,
    }
}

/// The test script a freshly scaffolded manifest carries; it counts as no
/// test script at all.
pub open spec fn null_test_script() -> Seq<char> {
    "echo \"Error: no test specified\" && exit 1"@
}

/// The manifest names a real test script: present, non-empty, and not the
/// scaffolding placeholder.
pub open spec fn has_test_script_of(pkg: PackageJson) -> bool {
    opt_text(pkg.test_script).len() > 0 && opt_text(pkg.test_script) != null_test_script()
}

/// The header body: the description, prefixed by the workflow badges and a
/// blank line when at least one workflow and a repository URL are known.
pub open spec fn node_description_of(pkg: PackageJson, ws: Seq<Seq<char>>) -> Seq<char> {
    let url = github_url_of(pkg.repository);
    if ws.len() >= 1 && url.len() >= 1 {
        badges_block_of(url, ws) + seq!['\n', '\n'] + opt_text(pkg.description)
    } else {
        opt_text(pkg.description)
    }
}

/// The license sentence of the Node.js interpreter: a fixed sentence for an
/// unlicensed marker, one generic sentence otherwise.
pub open spec fn node_license_body_of(pkg: PackageJson) -> Seq<char> {
    let license = opt_text(pkg.license);
    if eq_ignore_ascii_case_seq(license, "UNLICENSED"@) {
        "This is unlicensed proprietary software."@
    } else {
        "The "@ + license + " License. See the license file(s) for details."@
    }
}

/// The sections of a Node.js README, in order: header, install (unless the
/// package is private), usage, testing (only with a real test script), and
/// license (only when one is named).
pub open spec fn node_sections_of(pkg: PackageJson, ws: Seq<Seq<char>>) -> Seq<
    (Seq<char>, Seq<char>),
> {
    let header = (h1_text(node_name_of(pkg)), node_description_of(pkg, ws));
    let install = (h2_text("Install"@), sh_block_text("npm install "@ + node_name_of(pkg)));
    let usage = (h2_text("Usage"@), js_block_text("// To be documented."@));
    let testing = (h2_text("Testing"@), sh_block_text("npm test"@));
    let license = (h2_text("License"@), node_license_body_of(pkg));
    let ss = seq![header];
    let ss = if !node_private_of(pkg) {
        ss.push(install)
    } else {
        ss
    };
    let ss = ss.push(usage);
    let ss = if has_test_script_of(pkg) {
        ss.push(testing)
    } else {
        ss
    };
    if opt_text(pkg.license).len() > 0 {
        ss.push(license)
    } else {
        ss
    }
}

/// The full README text for a Node.js manifest.
pub open spec fn node_readme_of(pkg: PackageJson, ws: Seq<Seq<char>>) -> Seq<char> {
    sections_text(node_sections_of(pkg, ws))
}

/// Builds the README for a Node.js manifest. `workflows` is the list of
/// discovered workflow filenames.
pub fn build_nodejs_readme(pkg: &PackageJson, workflows: &Vec<String>) -> (r: String)
    ensures
        r@ == node_readme_of(*pkg, views_of(workflows@)),
{
    let ghost ws = views_of(workflows@);
    let name: String = match &pkg.name {
        Some(n) => n.clone(),
        None => String::from_str("<PACKAGE NAME>"),
    };
    let private: bool = match &pkg.private {
        Some(b) => *b,
        None => false,
    };
    let description: String = match &pkg.description {
        Some(d) => d.clone(),
        None => String::new(),
    };
    let license: String = match &pkg.license {
        Some(l) => l.clone(),
        None => String::new(),
    };
    let test_script: String = match &pkg.test_script {
        Some(t) => t.clone(),
        None => String::new(),
    };
    let has_test_script = test_script.as_str().unicode_len() > 0 && !str_eq(
        test_script.as_str(),
        "echo \"Error: no test specified\" && exit 1",
    );
    let github_url = get_github_url(&pkg.repository);
    let description: String = if workflows.len() >= 1 && github_url.as_str().unicode_len() >= 1 {
        let badges = GithubWorkflowBadges::new(github_url.as_str(), workflows.as_slice());
        let mut d = badges.render();
        d.append("\n\n");
        d.append(description.as_str());
        proof {
            reveal_strlit("\n\n");
            assert("\n\n"@ =~= seq!['\n', '\n']);
            assert(d@ =~= node_description_of(*pkg, ws));
        }
        d
    } else {
        description
    };
    let mut sections: Vec<Section> = Vec::new();
    sections.push(Section { title: h1(name.as_str()), body: description });
    if !private {
        let mut command = String::from_str("npm install ");
        command.append(name.as_str());
        sections.push(
            Section { title: h2("Install"), body: fenced_sh_code_block(command.as_str()) },
        );
    }
    sections.push(Section { title: h2("Usage"), body: fenced_js_code_block("// To be documented.") });
    if has_test_script {
        sections.push(Section { title: h2("Testing"), body: fenced_sh_code_block("npm test") });
    }
    if license.as_str().unicode_len() > 0 {
        let body: String = if eq_ignore_ascii_case_str(license.as_str(), "UNLICENSED") {
            String::from_str("This is unlicensed proprietary software.")
        } else {
            let mut b = String::from_str("The ");
            b.append(license.as_str());
            b.append(" License. See the license file(s) for details.");
            b
        };
        sections.push(Section { title: h2("License"), body });
    }
    let ghost section_pairs = sections@.map_values(|s: Section| s.pair());
    proof {
        assert(section_pairs =~= node_sections_of(*pkg, ws));
    }
    let readme = Readme::new(sections);
    readme.render()
}

} // verus!
