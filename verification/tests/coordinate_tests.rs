use clearly_defined::coordinate::{CoordVersion, Coordinate, ParseError, Provider, Shape};

#[test]
fn parse_crate_coordinate() {
    let c = Coordinate::from_str("crate/cratesio/-/syn/1.0.14").unwrap();
    assert_eq!(c.shape, Shape::Crate);
    assert_eq!(c.provider, Provider::CratesIo);
    assert_eq!(c.namespace, None);
    assert_eq!(c.name, "syn");
    assert_eq!(c.version, CoordVersion::Semver(String::from("1.0.14")));
    assert_eq!(c.curation_pr, None);
}

#[test]
fn format_crate_coordinate_roundtrip() {
    let c = Coordinate::from_str("crate/cratesio/-/syn/1.0.14").unwrap();
    assert_eq!(c.to_text(), "crate/cratesio/-/syn/1.0.14");
}

#[test]
fn parse_git_coordinate_with_pr() {
    let c = Coordinate::from_str("git/github/myorg/myrepo/abcdef/pr/42").unwrap();
    assert_eq!(c.shape, Shape::Git);
    assert_eq!(c.provider, Provider::Github);
    assert_eq!(c.namespace, Some(String::from("myorg")));
    assert_eq!(c.name, "myrepo");
    assert_eq!(c.version, CoordVersion::Any(String::from("abcdef")));
    assert_eq!(c.curation_pr, Some(42));
}

#[test]
fn format_git_coordinate_roundtrip() {
    let c = Coordinate::from_str("git/github/myorg/myrepo/abcdef/pr/42").unwrap();
    assert_eq!(c.to_text(), "git/github/myorg/myrepo/abcdef/pr/42");
}

#[test]
fn constructed_coordinate_roundtrips() {
    let c = Coordinate {
        shape: Shape::Git,
        provider: Provider::Github,
        namespace: Some(String::from("org")),
        name: String::from("repo"),
        version: CoordVersion::from_str("1.2.3-alpha.1+build.5"),
        curation_pr: Some(7),
    };
    let text = c.to_text();
    assert_eq!(text, "git/github/org/repo/1.2.3-alpha.1+build.5/pr/7");
    let back = Coordinate::from_str(text.as_str()).unwrap();
    assert_eq!(back, c);
}

#[test]
fn unknown_shape_is_an_error() {
    match Coordinate::from_str("maven/cratesio/-/syn/1.0.14") {
        Err(ParseError::UnknownShape(s)) => assert_eq!(s, "maven"),
        other => panic!("expected an unknown-shape error, got {:?}", other),
    }
}

#[test]
fn unknown_provider_is_an_error() {
    match Coordinate::from_str("crate/npmjs/-/syn/1.0.14") {
        Err(ParseError::UnknownProvider(s)) => assert_eq!(s, "npmjs"),
        other => panic!("expected an unknown-provider error, got {:?}", other),
    }
}

#[test]
fn empty_input_is_an_unknown_shape() {
    match Coordinate::from_str("") {
        Err(ParseError::UnknownShape(s)) => assert_eq!(s, ""),
        other => panic!("expected an unknown-shape error, got {:?}", other),
    }
}

#[test]
fn missing_segments_are_reported_in_order() {
    assert_eq!(Coordinate::from_str("crate"), Err(ParseError::MissingProvider));
    assert_eq!(Coordinate::from_str("crate/cratesio"), Err(ParseError::MissingNamespace));
    assert_eq!(Coordinate::from_str("crate/cratesio/-"), Err(ParseError::MissingName));
    assert_eq!(Coordinate::from_str("crate/cratesio/-/syn"), Err(ParseError::MissingVersion));
}

#[test]
fn trailing_segment_must_be_pr() {
    match Coordinate::from_str("crate/cratesio/-/syn/1.0.14/extra") {
        Err(ParseError::UnexpectedSegment(s)) => assert_eq!(s, "extra"),
        other => panic!("expected an unexpected-segment error, got {:?}", other),
    }
}

#[test]
fn pr_marker_without_number_is_an_error() {
    assert_eq!(
        Coordinate::from_str("git/github/org/repo/abc/pr"),
        Err(ParseError::MissingPrNumber)
    );
}

#[test]
fn non_numeric_pr_number_is_an_error() {
    match Coordinate::from_str("git/github/org/repo/abc/pr/seven") {
        Err(ParseError::InvalidPrNumber(s)) => assert_eq!(s, "seven"),
        other => panic!("expected an invalid-PR-number error, got {:?}", other),
    }
}

#[test]
fn oversized_pr_number_is_an_error() {
    match Coordinate::from_str("git/github/org/repo/abc/pr/99999999999") {
        Err(ParseError::InvalidPrNumber(s)) => assert_eq!(s, "99999999999"),
        other => panic!("expected an invalid-PR-number error, got {:?}", other),
    }
}

#[test]
fn segments_after_pr_number_are_rejected() {
    match Coordinate::from_str("git/github/org/repo/abc/pr/42/junk") {
        Err(ParseError::UnexpectedSegment(s)) => assert_eq!(s, "junk"),
        other => panic!("expected an unexpected-segment error, got {:?}", other),
    }
}

#[test]
fn pr_number_with_leading_zeros_parses_but_formats_canonically() {
    let c = Coordinate::from_str("git/github/org/repo/abc/pr/042").unwrap();
    assert_eq!(c.curation_pr, Some(42));
    assert_eq!(c.to_text(), "git/github/org/repo/abc/pr/42");
}

#[test]
fn empty_namespace_segment_is_kept() {
    let c = Coordinate::from_str("git/github//repo/abc").unwrap();
    assert_eq!(c.namespace, Some(String::from("")));
    assert_eq!(c.to_text(), "git/github//repo/abc");
}

#[test]
fn version_parsing_never_fails_on_opaque_text() {
    let v = CoordVersion::from_str("not a version at all");
    assert_eq!(v, CoordVersion::Any(String::from("not a version at all")));
    assert_eq!(v.to_text(), "not a version at all");
}

#[test]
fn semver_text_is_recognized_and_kept_canonical() {
    let v = CoordVersion::from_str("1.0.14");
    assert_eq!(v, CoordVersion::Semver(String::from("1.0.14")));
    assert_eq!(v.to_text(), "1.0.14");

    let pre = CoordVersion::from_str("2.0.0-rc.1+meta");
    assert_eq!(pre, CoordVersion::Semver(String::from("2.0.0-rc.1+meta")));
    assert_eq!(pre.to_text(), "2.0.0-rc.1+meta");
}

#[test]
fn near_semver_texts_stay_opaque() {
    // leading zeros, a `v` prefix, and missing parts all fail the strict grammar
    assert_eq!(CoordVersion::from_str("01.2.3"), CoordVersion::Any(String::from("01.2.3")));
    assert_eq!(CoordVersion::from_str("v1.2.3"), CoordVersion::Any(String::from("v1.2.3")));
    assert_eq!(CoordVersion::from_str("1.2"), CoordVersion::Any(String::from("1.2")));
    assert_eq!(CoordVersion::from_str(""), CoordVersion::Any(String::from("")));
}

#[test]
fn shape_and_provider_identifiers() {
    assert_eq!(Shape::Crate.as_str(), "crate");
    assert_eq!(Shape::Git.as_str(), "git");
    assert_eq!(Provider::CratesIo.as_str(), "cratesio");
    assert_eq!(Provider::Github.as_str(), "github");
    assert_eq!(Shape::from_str("crate"), Some(Shape::Crate));
    assert_eq!(Shape::from_str("git"), Some(Shape::Git));
    assert_eq!(Shape::from_str("Crate"), None);
    assert_eq!(Provider::from_str("cratesio"), Some(Provider::CratesIo));
    assert_eq!(Provider::from_str("github"), Some(Provider::Github));
    assert_eq!(Provider::from_str("GitHub"), None);
}

#[test]
fn parse_error_messages_embed_the_input() {
    let e = Coordinate::from_str("pod/cratesio/-/syn/1.0.14").unwrap_err();
    assert_eq!(e.message(), "unknown shape 'pod'");
    let e = Coordinate::from_str("crate/cratesio/-/syn/1.0.14/junk").unwrap_err();
    assert_eq!(e.message(), "unknown trailing path component 'junk'");
    let e = Coordinate::from_str("crate").unwrap_err();
    assert_eq!(e.message(), "missing provider");
    let e = Coordinate::from_str("git/github/o/r/v/pr/x").unwrap_err();
    assert_eq!(e.message(), "unable to parse PR number 'x'");
    match e.into_error() {
        clearly_defined::error::Error::Other(m) => {
            assert_eq!(m, "unable to parse PR number 'x'")
        },
        other => panic!("expected the catch-all error kind, got {:?}", other),
    }
}
