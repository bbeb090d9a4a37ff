use readme_md::detect_project_kind;
use readme_md::github::get_github_workflows;
use readme_md::github::GithubWorkflowBadge;
use readme_md::github::GithubWorkflowBadges;
use readme_md::license::get_license_section_body;
use readme_md::license::read_general_license_filenames;
use readme_md::readme::Readme;
use readme_md::readme::Section;
use readme_md::ProjectKind;

fn section(title: &str, body: &str) -> Section {
    Section { title: String::from(title), body: String::from(body) }
}

#[test]
fn document_render_joins_two_sections_with_a_blank_line() {
    let a = section("# A", "body of a");
    let b = section("## B", "body of b");
    let readme = Readme::new(vec![a, b]);

    assert_eq!(readme.render(), "# A\nbody of a\n\n## B\nbody of b");
}

#[test]
fn document_render_of_one_section_is_its_title_and_body() {
    let readme = Readme::new(vec![section("# A", "b")]);
    assert_eq!(readme.render(), "# A\nb");
}

#[test]
fn document_render_of_no_sections_is_empty() {
    let readme = Readme::new(vec![]);
    assert_eq!(readme.render(), "");
}

#[test]
fn detection_prefers_the_node_manifest() {
    assert_eq!(detect_project_kind(true, true), ProjectKind::NodeJs);
    assert_eq!(detect_project_kind(true, false), ProjectKind::NodeJs);
    assert_eq!(detect_project_kind(false, true), ProjectKind::Rust);
    assert_eq!(detect_project_kind(false, false), ProjectKind::Unknown);
}

#[test]
fn workflow_listing_keeps_only_workflow_files_in_order() {
    let entries = vec![
        String::from("ci.yaml"),
        String::from("README.md"),
        String::from("deploy.yml"),
        String::from("notes.txt"),
    ];
    let workflows = get_github_workflows(&entries);
    assert_eq!(workflows, vec![String::from("ci.yaml"), String::from("deploy.yml")]);
}

#[test]
fn workflow_listing_of_no_entries_is_empty() {
    let entries: Vec<String> = vec![];
    assert!(get_github_workflows(&entries).is_empty());
}

#[test]
fn badge_render_strips_one_trailing_slash() {
    let badge = GithubWorkflowBadge::new("https://github.com/o/r/", "ci.yaml");
    assert_eq!(
        badge.render(),
        "[![CI](https://github.com/o/r/actions/workflows/ci.yaml/badge.svg)](https://github.com/o/r/actions/workflows/ci.yaml)"
    );
}

#[test]
fn badges_render_joined_by_line_breaks() {
    let workflows = vec![String::from("ci.yaml"), String::from("build.yaml")];
    let badges = GithubWorkflowBadges::new("https://github.com/o/r", &workflows);
    assert_eq!(
        badges.render(),
        "[![CI](https://github.com/o/r/actions/workflows/ci.yaml/badge.svg)](https://github.com/o/r/actions/workflows/ci.yaml)\n\
         [![Build](https://github.com/o/r/actions/workflows/build.yaml/badge.svg)](https://github.com/o/r/actions/workflows/build.yaml)"
    );
}

#[test]
fn license_filenames_follow_the_probe_order() {
    let files = read_general_license_filenames(true, false, true);
    assert_eq!(files, vec![String::from("LICENSE"), String::from("LICENSE.txt")]);
}

#[test]
fn license_body_names_compound_licenses_in_the_plural() {
    let files: Vec<String> = vec![];
    assert_eq!(
        get_license_section_body("MIT AND Apache-2.0", &files),
        "The MIT AND Apache-2.0 Licenses. See the license files for details"
    );
}

#[test]
fn license_body_names_disjunctive_licenses_in_the_singular() {
    let files: Vec<String> = vec![];
    assert_eq!(
        get_license_section_body("MIT OR Apache-2.0", &files),
        "The MIT OR Apache-2.0 License. See the license files for details"
    );
}

#[test]
fn license_body_reports_unlicensed_software() {
    let files = vec![String::from("LICENSE")];
    assert_eq!(
        get_license_section_body("Unlicensed", &files),
        "This is unlicensed proprietary software."
    );
}

#[test]
fn license_body_links_a_single_license_file() {
    let files = vec![String::from("LICENSE.md")];
    assert_eq!(
        get_license_section_body("MIT", &files),
        "The MIT License. See the [license file](LICENSE.md) for details."
    );
}

#[test]
fn license_body_stays_bare_without_exactly_one_license_file() {
    let none: Vec<String> = vec![];
    assert_eq!(get_license_section_body("MIT", &none), "The MIT License.");

    let two = vec![String::from("LICENSE"), String::from("LICENSE.md")];
    assert_eq!(get_license_section_body("MIT", &two), "The MIT License.");
}
