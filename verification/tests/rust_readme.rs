use readme_md::rust::build_rust_readme;
use readme_md::rust::cargo_package_of_value;
use readme_md::rust::parse_cargo_toml;
use readme_md::rust::CargoPackage;

#[test]
fn rust_readme_treats_a_package_without_a_main_file_as_a_library() {
    let pkg = CargoPackage {
        name: Some(String::from("bar")),
        description: None,
        license: None,
        repository: None,
    };
    let workflows: Vec<String> = vec![];
    let license_files: Vec<String> = vec![];
    let readme = build_rust_readme(&pkg, &workflows, false, &license_files);

    assert_eq!(
        readme,
        "# bar\n\n\n\
         ## Install\n```sh\ncargo add bar\n```\n\n\
         ## Usage\n```rust\n// To be documented.\n```"
    );
}

#[test]
fn rust_readme_treats_a_package_with_a_main_file_as_an_application() {
    let pkg = CargoPackage {
        name: Some(String::from("bar")),
        description: None,
        license: None,
        repository: None,
    };
    let workflows: Vec<String> = vec![];
    let license_files: Vec<String> = vec![];
    let readme = build_rust_readme(&pkg, &workflows, true, &license_files);

    assert!(readme.contains("## Install\n```sh\ncargo install bar\n```"));
    assert!(readme.contains("## Usage\n```sh\n# To be documented.\n```"));
}

#[test]
fn rust_readme_builds_from_a_parsed_manifest() {
    let toml_text = "[package]\n\
                     name = \"baz\"\n\
                     description = \"A tool.\"\n\
                     license = \"MIT\"\n\
                     repository = \"https://github.com/o/baz\"\n";
    let value = parse_cargo_toml(toml_text).map_err(|e| e.message).unwrap();
    let pkg = cargo_package_of_value(&value).map_err(|e| e.message).unwrap();
    assert_eq!(pkg.name, Some(String::from("baz")));

    let workflows = vec![String::from("ci.yml")];
    let license_files = vec![String::from("LICENSE")];
    let readme = build_rust_readme(&pkg, &workflows, false, &license_files);

    assert_eq!(
        readme,
        "# baz\n\
         [![CI](https://github.com/o/baz/actions/workflows/ci.yml/badge.svg)](https://github.com/o/baz/actions/workflows/ci.yml)\n\n\
         A tool.\n\n\
         ## Install\n```sh\ncargo add baz\n```\n\n\
         ## Usage\n```rust\n// To be documented.\n```\n\n\
         ## License\nThe MIT License. See the [license file](LICENSE) for details."
    );
}

#[test]
fn rust_readme_defaults_everything_without_a_package_table() {
    let value = parse_cargo_toml("[dependencies]\n").map_err(|e| e.message).unwrap();
    let pkg = cargo_package_of_value(&value).map_err(|e| e.message).unwrap();

    assert_eq!(pkg.name, None);
    assert_eq!(pkg.license, None);

    let workflows: Vec<String> = vec![];
    let license_files: Vec<String> = vec![];
    let readme = build_rust_readme(&pkg, &workflows, false, &license_files);
    assert!(readme.starts_with("# <PACKAGE NAME>\n"));
    assert!(!readme.contains("## License"));
}

#[test]
fn cargo_package_of_value_rejects_a_wrongly_typed_field() {
    let value = parse_cargo_toml("[package]\nname = 3\n").map_err(|e| e.message).unwrap();
    let err = cargo_package_of_value(&value).err().unwrap();
    assert_eq!(err.message, "the package name field is not a string");
}

#[test]
fn parse_cargo_toml_rejects_malformed_text() {
    let err = parse_cargo_toml("= nope").err().unwrap();
    assert!(!err.message.is_empty());
}
