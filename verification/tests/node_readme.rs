use readme_md::nodejs::build_nodejs_readme;
use readme_md::nodejs::package_json_of_value;
use readme_md::nodejs::parse_package_json;
use readme_md::nodejs::PackageJson;

fn plain_package(name: &str, private: bool, license: Option<&str>) -> PackageJson {
    PackageJson {
        name: Some(String::from(name)),
        private: Some(private),
        description: Some(String::from("d")),
        license: license.map(String::from),
        test_script: None,
        repository: None,
    }
}

#[test]
fn node_readme_has_four_sections_for_a_public_licensed_package() {
    let pkg = plain_package("foo", false, Some("MIT"));
    let workflows: Vec<String> = vec![];
    let readme = build_nodejs_readme(&pkg, &workflows);

    assert_eq!(
        readme,
        "# foo\nd\n\n\
         ## Install\n```sh\nnpm install foo\n```\n\n\
         ## Usage\n```js\n// To be documented.\n```\n\n\
         ## License\nThe MIT License. See the license file(s) for details."
    );
}

#[test]
fn node_readme_has_two_sections_for_a_private_unlicensed_package() {
    let pkg = plain_package("foo", true, None);
    let workflows: Vec<String> = vec![];
    let readme = build_nodejs_readme(&pkg, &workflows);

    assert_eq!(readme, "# foo\nd\n\n## Usage\n```js\n// To be documented.\n```");
}

#[test]
fn node_readme_skips_testing_for_the_placeholder_test_script() {
    let json = r#"
        {
            "name": "foo",
            "scripts": { "test": "echo \"Error: no test specified\" && exit 1" }
        }
    "#;
    let value = parse_package_json(json).map_err(|e| e.message).unwrap();
    let pkg = package_json_of_value(&value);
    assert_eq!(
        pkg.test_script,
        Some(String::from("echo \"Error: no test specified\" && exit 1"))
    );

    let workflows: Vec<String> = vec![];
    let readme = build_nodejs_readme(&pkg, &workflows);
    assert!(!readme.contains("## Testing"));
}

#[test]
fn node_readme_adds_testing_for_a_real_test_script() {
    let mut pkg = plain_package("foo", true, None);
    pkg.test_script = Some(String::from("jest"));
    let workflows: Vec<String> = vec![];
    let readme = build_nodejs_readme(&pkg, &workflows);

    assert!(readme.contains("## Testing\n```sh\nnpm test\n```"));
}

#[test]
fn node_readme_prefixes_badges_when_workflows_and_repository_exist() {
    let json = r#"
        {
            "name": "foo",
            "description": "d",
            "private": true,
            "repository": { "type": "git", "url": "git+https://github.com/o/r.git" }
        }
    "#;
    let value = parse_package_json(json).map_err(|e| e.message).unwrap();
    let pkg = package_json_of_value(&value);
    let workflows = vec![String::from("ci.yaml"), String::from("build-release.yml")];
    let readme = build_nodejs_readme(&pkg, &workflows);

    assert_eq!(
        readme,
        "# foo\n\
         [![CI](https://github.com/o/r/actions/workflows/ci.yaml/badge.svg)](https://github.com/o/r/actions/workflows/ci.yaml)\n\
         [![Build Release](https://github.com/o/r/actions/workflows/build-release.yml/badge.svg)](https://github.com/o/r/actions/workflows/build-release.yml)\n\n\
         d\n\n\
         ## Usage\n```js\n// To be documented.\n```"
    );
}

#[test]
fn node_readme_keeps_the_description_bare_without_a_repository() {
    let mut pkg = plain_package("foo", true, None);
    pkg.repository = None;
    let workflows = vec![String::from("ci.yaml")];
    let readme = build_nodejs_readme(&pkg, &workflows);

    assert_eq!(readme, "# foo\nd\n\n## Usage\n```js\n// To be documented.\n```");
}

#[test]
fn node_readme_reports_unlicensed_packages() {
    let pkg = plain_package("foo", true, Some("unlicensed"));
    let workflows: Vec<String> = vec![];
    let readme = build_nodejs_readme(&pkg, &workflows);

    assert!(readme.contains("## License\nThis is unlicensed proprietary software."));
}

#[test]
fn node_readme_uses_a_placeholder_for_a_missing_name() {
    let pkg = PackageJson {
        name: None,
        private: None,
        description: None,
        license: None,
        test_script: None,
        repository: None,
    };
    let workflows: Vec<String> = vec![];
    let readme = build_nodejs_readme(&pkg, &workflows);

    assert!(readme.starts_with("# <PACKAGE NAME>\n"));
    assert!(readme.contains("npm install <PACKAGE NAME>"));
}

#[test]
fn parse_package_json_rejects_malformed_text() {
    let err = parse_package_json("{ not json").err().unwrap();
    assert!(!err.message.is_empty());
}

#[test]
fn package_json_of_value_defaults_wrongly_typed_fields() {
    let json = r#"{ "name": 7, "private": "yes", "description": ["d"] }"#;
    let value = parse_package_json(json).map_err(|e| e.message).unwrap();
    let pkg = package_json_of_value(&value);

    assert_eq!(pkg.name, None);
    assert_eq!(pkg.private, None);
    assert_eq!(pkg.description, None);
}
