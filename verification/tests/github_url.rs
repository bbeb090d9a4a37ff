use readme_md::nodejs::get_github_url;
use readme_md::nodejs::parse_repository_value;
use readme_md::nodejs::RepoRef;

fn url_of_json(json: &str) -> String {
    let repository: serde_json::Value = serde_json::from_str(json).unwrap();
    let repo_ref = parse_repository_value(&repository);
    get_github_url(&Some(repo_ref))
}

#[test]
fn lib_get_github_url_parses_an_object() {
    let json = r#"
        {
            "type": "git",
            "url": "git+https://github.com/jbenner-radham/node-readme-md-cli.git"
        }
    "#;
    let url = url_of_json(json);

    assert_eq!(url, "https://github.com/jbenner-radham/node-readme-md-cli");
}

#[test]
fn lib_get_github_url_parses_a_string_in_prefixed_shortcut_syntax() {
    let json = r#""github:jbenner-radham/node-readme-md-cli""#;
    let url = url_of_json(json);

    assert_eq!(url, "https://github.com/jbenner-radham/node-readme-md-cli");
}

#[test]
fn lib_get_github_url_parses_a_string_in_unprefixed_shortcut_syntax() {
    let json = r#""jbenner-radham/node-readme-md-cli""#;
    let url = url_of_json(json);

    assert_eq!(url, "https://github.com/jbenner-radham/node-readme-md-cli");
}

#[test]
fn nodejs_get_github_url_parses_an_object() {
    let json = r#"
        {
            "type": "git",
            "url": "git+https://github.com/jbenner-radham/node-readme-md-cli.git"
        }
    "#;
    let url = url_of_json(json);

    assert_eq!(url, "https://github.com/jbenner-radham/node-readme-md-cli");
}

#[test]
fn nodejs_get_github_url_parses_a_string_in_prefixed_shortcut_syntax() {
    let json = r#""github:jbenner-radham/node-readme-md-cli""#;
    let url = url_of_json(json);

    assert_eq!(url, "https://github.com/jbenner-radham/node-readme-md-cli");
}

#[test]
fn nodejs_get_github_url_parses_a_string_in_unprefixed_shortcut_syntax() {
    let json = r#""jbenner-radham/node-readme-md-cli""#;
    let url = url_of_json(json);

    assert_eq!(url, "https://github.com/jbenner-radham/node-readme-md-cli");
}

#[test]
fn get_github_url_ignores_extra_shortcut_components() {
    let repo = RepoRef::Text(String::from("github:owner/repo/tree/main"));
    assert_eq!(get_github_url(&Some(repo)), "https://github.com/owner/repo");

    let repo = RepoRef::Text(String::from("owner/repo/tree/main"));
    assert_eq!(get_github_url(&Some(repo)), "https://github.com/owner/repo");
}

#[test]
fn get_github_url_rejects_unrecognized_forms() {
    assert_eq!(get_github_url(&None), "");

    let repo = RepoRef::Text(String::from("just-a-name"));
    assert_eq!(get_github_url(&Some(repo)), "");

    let repo = RepoRef::Text(String::from("git://example.com/owner/repo"));
    assert_eq!(get_github_url(&Some(repo)), "");

    let repo = RepoRef::Object {
        type_field: Some(String::from("svn")),
        url_field: Some(String::from("https://github.com/owner/repo")),
    };
    assert_eq!(get_github_url(&Some(repo)), "");

    let repo = RepoRef::Object {
        type_field: Some(String::from("git")),
        url_field: Some(String::from("https://example.com/owner/repo")),
    };
    assert_eq!(get_github_url(&Some(repo)), "");
}

#[test]
fn get_github_url_keeps_a_plain_github_object_url() {
    let repo = RepoRef::Object {
        type_field: Some(String::from("git")),
        url_field: Some(String::from("https://github.com/owner/repo")),
    };
    assert_eq!(get_github_url(&Some(repo)), "https://github.com/owner/repo");
}
