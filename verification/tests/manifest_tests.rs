use restgen::manifest::{manifest_text, ManifestError};
use restgen::tags::{get_default_tag, Tag};

fn tag(name: &str) -> Tag {
    Tag::new(String::from(name))
}

#[test]
fn manifest_exact_text() {
    let tags = vec![tag("2021-01-01"), tag("2021-06-01-preview")];
    let default_tag = tag("2021-01-01");
    let text = manifest_text("azure_mgmt_demo", &tags, &default_tag).unwrap();
    let expected = "[package]\nname = \"azure_mgmt_demo\"\nversion = \"0.3.0\"\nedition = \"2021\"\n\n[features]\ndefault = [\"2021-01-01\", \"enable_reqwest\"]\nno-default-tag = []\n\"2021-01-01\" = []\n\"2021-06-01-preview\" = []\n";
    assert_eq!(text, expected);
}

#[test]
fn manifest_has_one_feature_line_per_tag_plus_two() {
    let tags = vec![tag("a"), tag("b"), tag("c"), tag("d-preview")];
    let default_tag = tag("a");
    let text = manifest_text("demo", &tags, &default_tag).unwrap();
    let features = text.split("[features]\n").nth(1).unwrap();
    let feature_lines = features.lines().filter(|l| l.contains(" = [")).count();
    assert_eq!(feature_lines, tags.len() + 2);
}

#[test]
fn manifest_default_references_resolved_tag() {
    let tags = vec![tag("2021-01-01"), tag("2021-06-01-preview")];
    let default_tag = get_default_tag(&tags, None);
    let text = manifest_text("demo", &tags, default_tag).unwrap();
    assert!(text.contains("default = [\"2021-01-01\", \"enable_reqwest\"]\n"));
}

#[test]
fn manifest_normalizes_feature_names() {
    let tags = vec![tag("2021.03")];
    let default_tag = tag("2021.03");
    let text = manifest_text("demo", &tags, &default_tag).unwrap();
    assert!(text.contains("default = [\"2021-03\", \"enable_reqwest\"]\n"));
    assert!(text.contains("\"2021-03\" = []\n"));
}

#[test]
fn empty_tag_set_is_refused() {
    let tags: Vec<Tag> = Vec::new();
    let default_tag = tag("a");
    let r = manifest_text("demo", &tags, &default_tag);
    assert_eq!(r.unwrap_err(), ManifestError::EmptyTagSet);
}

#[test]
fn colliding_feature_names_are_refused() {
    let tags = vec![tag("2021.03"), tag("2021-03")];
    let default_tag = tag("2021-03");
    let r = manifest_text("demo", &tags, &default_tag);
    assert_eq!(r.unwrap_err(), ManifestError::DuplicateFeatureName);
}
