use restgen::tags::{feature_name_of, get_default_tag, Tag};

fn tag(name: &str) -> Tag {
    Tag::new(String::from(name))
}

#[test]
fn default_is_first_non_preview() {
    let tags = vec![tag("2021-01-01"), tag("2021-06-01-preview")];
    let d = get_default_tag(&tags, None);
    assert_eq!(d.name(), "2021-01-01");
}

#[test]
fn sole_preview_tag_is_default() {
    let tags = vec![tag("2020-01-01-preview")];
    let d = get_default_tag(&tags, None);
    assert_eq!(d.name(), "2020-01-01-preview");
}

#[test]
fn all_preview_falls_back_to_first() {
    let tags = vec![tag("2021-06-01-preview"), tag("2021-07-01-preview")];
    let d = get_default_tag(&tags, None);
    assert_eq!(d.name(), "2021-06-01-preview");
}

#[test]
fn explicit_request_wins_over_preview_status() {
    let tags = vec![tag("2020-01-01"), tag("2021-06-01-preview")];
    let d = get_default_tag(&tags, Some("2021-06-01-preview"));
    assert_eq!(d.name(), "2021-06-01-preview");
}

#[test]
fn unmatched_request_is_ignored() {
    let tags = vec![tag("2020-01-01"), tag("2021-06-01-preview")];
    let d = get_default_tag(&tags, Some("2019-12-31"));
    assert_eq!(d.name(), "2020-01-01");
}

#[test]
fn request_matches_later_tag() {
    let tags = vec![tag("a"), tag("b"), tag("c")];
    let d = get_default_tag(&tags, Some("c"));
    assert_eq!(d.name(), "c");
}

#[test]
fn first_non_preview_among_many() {
    let tags = vec![tag("x-preview"), tag("y"), tag("z")];
    let d = get_default_tag(&tags, None);
    assert_eq!(d.name(), "y");
}

#[test]
fn is_preview_is_a_substring_test() {
    assert!(tag("2021-06-01-preview").is_preview());
    assert!(!tag("2021-06-01").is_preview());
    assert!(tag("previewonly").is_preview());
    assert!(!tag("previe-w").is_preview());
    assert!(!tag("PREVIEW").is_preview());
}

#[test]
fn feature_name_replaces_non_identifier_characters() {
    assert_eq!(feature_name_of("package-2021-03"), "package-2021-03");
    assert_eq!(feature_name_of("2021.03 beta"), "2021-03-beta");
    assert_eq!(feature_name_of("a_b-C9"), "a_b-C9");
    assert_eq!(feature_name_of(""), "");
}

#[test]
fn feature_name_is_deterministic() {
    let t = tag("2021-06-01-preview");
    let first = t.feature_name();
    let second = t.feature_name();
    assert_eq!(first, second);
    assert_eq!(first, "2021-06-01-preview");
}
