//! The Rust manifest interpreter: reads the `package` table of a parsed
//! `Cargo.toml` value and assembles the README document.
use vstd::prelude::*;

verus! {

use vstd::string::StrSliceExecFns;
use vstd::string::StringExecFns;
use crate::ParseError;
use crate::github::GithubWorkflowBadges;
use crate::github::badges_block_of;
use crate::license::get_license_section_body;
use crate::license::license_body_of;
use crate::markdown::fenced_rs_code_block;
use crate::markdown::fenced_sh_code_block;
use crate::markdown::h1;
use crate::markdown::h1_text;
use crate::markdown::h2;
use crate::markdown::h2_text;
use crate::markdown::rust_block_text;
use crate::markdown::sh_block_text;
use crate::nodejs::opt_text;
use crate::nodejs::placeholder_name;
use crate::readme::Readme;
use crate::readme::Section;
use crate::readme::sections_text;
use crate::text::contains_seq;
use crate::text::contains_substr;
use crate::text::views_of;

#[verifier::external_type_specification]
#[verifier::external_body]
pub struct ExTomlValue(toml::Value);

#[verifier::external_type_specification]
#[verifier::external_body]
pub struct ExTomlError(toml::de::Error);

/// Whether the TOML parser accepts `s` as one document.
pub uninterp spec fn toml_parses(s: Seq<char>) -> bool;

/// Relies on toml::from_str: parses one TOML document into a generic value;
/// whether the text is accepted depends on the text alone.
#[verifier::external_body]
fn toml_from_str(s: &str) -> (r: Result<toml::Value, toml::de::Error>)
    ensures
        r is Ok <==> toml_parses(s@),
{
    toml::from_str(s)
}

/// Relies on toml::de::Error's Display implementation for the diagnostic
/// line shown to the user.
#[verifier::external_body]
fn toml_error_message(e: &toml::de::Error) -> String {
    e.to_string()
}

/// Relies on toml::Value::get: the member of a TOML table under a key; None
/// for an absent key or any non-table value.
#[verifier::external_body]
fn toml_get<'a>(v: &'a toml::Value, key: &str) -> Option<&'a toml::Value> {
    v.get(key)
}

/// Relies on toml::Value::as_str: the text of a TOML string value, None for
/// any other kind of value.
#[verifier::external_body]
fn toml_as_str(v: &toml::Value) -> Option<String> {
    v.as_str().map(|s| s.to_string())
}

/// Parses the text of a Rust manifest into a generic TOML value. Succeeds
/// exactly on the texts the TOML parser accepts.
pub fn parse_cargo_toml(contents: &str) -> (r: Result<toml::Value, ParseError>)
    ensures
        r is Ok <==> toml_parses(contents@),
{
    match toml_from_str(contents) {
        Ok(v) => Ok(v),
        Err(e) => Err(ParseError { message: toml_error_message(&e) }),
    }
}

/// The fields a Rust manifest's `package` table supplies to the document
/// builder; a field is None where the table lacks it.
pub struct CargoPackage {
    pub name: Option<String>,
    pub description: Option<String>,
    pub license: Option<String>,
    pub repository: Option<String>,
}

/// The string member of a TOML table under `key`: None where absent, an
/// error where present with another type.
fn toml_str_field(v: &toml::Value, key: &str) -> Result<Option<String>, ParseError> {
    match toml_get(v, key) {
        Some(f) => match toml_as_str(f) {
            Some(s) => Ok(Some(s)),
            None => {
                let mut message = String::from_str("the package ");
                message.append(key);
                message.append(" field is not a string");
                Err(ParseError { message })
            },
        },
        None => Ok(None),
    }
}

/// Reads the `package` table fields this library interprets out of a parsed
/// TOML value. An absent table leaves every field absent; a field held with
/// a non-string type is an error, as the document cannot be assembled.
pub fn cargo_package_of_value(cargo: &toml::Value) -> Result<CargoPackage, ParseError> {
    match toml_get(cargo, "package") {
        Some(package) => {
            let name = toml_str_field(package, "name")?;
            let description = toml_str_field(package, "description")?;
            let license = toml_str_field(package, "license")?;
            let repository = toml_str_field(package, "repository")?;
            Ok(CargoPackage { name, description, license, repository })
        },
        None => Ok(
            CargoPackage { name: None, description: None, license: None, repository: None },
        ),
    }
}

pub open spec fn rust_name_of(pkg: CargoPackage) -> Seq<char> {
    match pkg.name {
        Some(n) => n@,
        None => placeholder_name(),
    }
}

/// The header body: the description, prefixed by the workflow badges and a
/// blank line when the repository names github.com and a workflow exists.
/// The repository string itself serves as the badge base URL.
pub open spec fn rust_description_of(pkg: CargoPackage, ws: Seq<Seq<char>>) -> Seq<char> {
    let repository = opt_text(pkg.repository);
    if contains_seq(repository, "github.com"@) && ws.len() != 0 {
        badges_block_of(repository, ws) + seq!['\n', '\n'] + opt_text(pkg.description)
    } else {
        opt_text(pkg.description)
    }
}

/// The install command's verb: binaries are installed, libraries added.
pub open spec fn install_verb_of(is_application: bool) -> Seq<char> {
    if is_application {
        "install"@
    } else {
        "add"@
    }
}

/// The sections of a Rust README, in order: header, install, usage, and
/// license (only when one is named). `is_application` says whether the
/// conventional executable entry point exists on disk.
pub open spec fn rust_sections_of(
    pkg: CargoPackage,
    ws: Seq<Seq<char>>,
    is_application: bool,
    files: Seq<Seq<char>>,
) -> Seq<(Seq<char>, Seq<char>)> {
    let header = (h1_text(rust_name_of(pkg)), rust_description_of(pkg, ws));
    let install = (
        h2_text("Install"@),
        sh_block_text("cargo "@ + install_verb_of(is_application) + " "@ + rust_name_of(pkg)),
    );
    let usage = (
        h2_text("Usage"@),
        if is_application {
            sh_block_text("# To be documented."@)
        } else {
            rust_block_text("// To be documented."@)
        },
    );
    let license = (h2_text("License"@), license_body_of(opt_text(pkg.license), files));
    let ss = seq![header, install, usage];
    if opt_text(pkg.license).len() > 0 {
        ss.push(license)
    } else {
        ss
    }
}

/// The full README text for a Rust manifest.
pub open spec fn rust_readme_of(
    pkg: CargoPackage,
    ws: Seq<Seq<char>>,
    is_application: bool,
    files: Seq<Seq<char>>,
) -> Seq<char> {
    sections_text(rust_sections_of(pkg, ws, is_application, files))
}

/// Builds the README for a Rust manifest. `workflows` is the list of
/// discovered workflow filenames, `is_application` whether the conventional
/// executable entry point exists, and `license_files` the license filenames
/// present in the working directory.
pub fn build_rust_readme(
    pkg: &CargoPackage,
    workflows: &Vec<String>,
    is_application: bool,
    license_files: &Vec<String>,
) -> (r: String)
    ensures
        r@ == rust_readme_of(*pkg, views_of(workflows@), is_application, views_of(license_files@)),
{
    let ghost ws = views_of(workflows@);
    let name: String = match &pkg.name {
        Some(n) => n.clone(),
        None => String::from_str("<PACKAGE NAME>"),
    };
    let description: String = match &pkg.description {
        Some(d) => d.clone(),
        None => String::new(),
    };
    let license: String = match &pkg.license {
        Some(l) => l.clone(),
        None => String::new(),
    };
    let repository: String = match &pkg.repository {
        Some(r) => r.clone(),
        None => String::new(),
    };
    let description: String = if contains_substr(repository.as_str(), "github.com")
        && workflows.len() != 0 {
        let badges = GithubWorkflowBadges::new(repository.as_str(), workflows.as_slice());
        let mut d = badges.render();
        d.append("\n\n");
        d.append(description.as_str());
        proof {
            reveal_strlit("\n\n");
            assert("\n\n"@ =~= seq!['\n', '\n']);
            assert(d@ =~= rust_description_of(*pkg, ws));
        }
        d
    } else {
        description
    };
    let mut install_command = String::from_str("cargo ");
    install_command.append(if is_application {
        "install"
    } else {
        "add"
    });
    install_command.append(" ");
    install_command.append(name.as_str());
    let usage_body: String = if is_application {
        fenced_sh_code_block("# To be documented.")
    } else {
        fenced_rs_code_block("// To be documented.")
    };
    let mut sections: Vec<Section> = Vec::new();
    sections.push(Section { title: h1(name.as_str()), body: description });
    sections.push(
        Section { title: h2("Install"), body: fenced_sh_code_block(install_command.as_str()) },
    );
    sections.push(Section { title: h2("Usage"), body: usage_body });
    if license.as_str().unicode_len() > 0 {
        sections.push(
            Section {
                title: h2("License"),
                body: get_license_section_body(license.as_str(), license_files),
            },
        );
    }
    let ghost section_pairs = sections@.map_values(|s: Section| s.pair());
    proof {
        assert(section_pairs =~= rust_sections_of(*pkg, ws, is_application, views_of(license_files@)));
    }
    let readme = Readme::new(sections);
    readme.render()
}

} // verus!
