use readme_md::github::get_alt_text;

#[test]
fn lib_get_alt_text_changes_a_hyphenated_workflow_into_titlecase_text() {
    let workflow = "build-release.yaml";
    let alt_text = get_alt_text(&workflow);

    assert_eq!(alt_text, "Build Release");
}

#[test]
fn lib_get_alt_text_changes_a_snakecased_workflow_into_titlecase_text() {
    let workflow = "build_release.yaml";
    let alt_text = get_alt_text(&workflow);

    assert_eq!(alt_text, "Build Release");
}

#[test]
fn lib_get_alt_text_changes_a_camelcased_workflow_into_titlecase_text() {
    let workflow = "buildRelease.yaml";
    let alt_text = get_alt_text(&workflow);

    assert_eq!(alt_text, "Build Release");
}

#[test]
fn lib_get_alt_text_changes_a_single_word_workflow_into_titlecase_text() {
    let workflow = "build.yaml";
    let alt_text = get_alt_text(&workflow);

    assert_eq!(alt_text, "Build");
}

#[test]
fn lib_get_alt_text_changes_a_workflow_named_ci_into_titlecase_text() {
    let workflow = "ci.yaml";
    let alt_text = get_alt_text(&workflow);

    assert_eq!(alt_text, "CI");
}

#[test]
fn nodejs_get_alt_text_changes_a_hyphenated_workflow_into_titlecase_text() {
    let workflow = "build-release.yaml";
    let alt_text = get_alt_text(&workflow);

    assert_eq!(alt_text, "Build Release");
}

#[test]
fn nodejs_get_alt_text_changes_a_snakecased_workflow_into_titlecase_text() {
    let workflow = "build_release.yaml";
    let alt_text = get_alt_text(&workflow);

    assert_eq!(alt_text, "Build Release");
}

#[test]
fn nodejs_get_alt_text_changes_a_camelcased_workflow_into_titlecase_text() {
    let workflow = "buildRelease.yaml";
    let alt_text = get_alt_text(&workflow);

    assert_eq!(alt_text, "Build Release");
}

#[test]
fn nodejs_get_alt_text_changes_a_single_word_workflow_into_titlecase_text() {
    let workflow = "build.yaml";
    let alt_text = get_alt_text(&workflow);

    assert_eq!(alt_text, "Build");
}

#[test]
fn nodejs_get_alt_text_changes_a_workflow_named_ci_into_titlecase_text() {
    let workflow = "ci.yaml";
    let alt_text = get_alt_text(&workflow);

    assert_eq!(alt_text, "CI");
}

#[test]
fn get_alt_text_keeps_a_titlecased_word() {
    assert_eq!(get_alt_text("Build.yaml"), "Build");
}

#[test]
fn get_alt_text_uppercases_mixed_case_ci_names() {
    assert_eq!(get_alt_text("Ci.yaml"), "CI");
    assert_eq!(get_alt_text("CI.yml"), "CI");
}
