use clearly_defined::coordinate::{CoordVersion, Provider, Shape};
use clearly_defined::definitions::{
    decode_description, Definition, GetResponse, TopLevelScore,
};
use clearly_defined::error::Error;
use clearly_defined::json::{DecodeError, Json};

fn s(text: &str) -> String {
    String::from(text)
}

fn obj(members: Vec<(&str, Json)>) -> Json {
    Json::Obj(members.into_iter().map(|(k, v)| (s(k), v)).collect())
}

fn coordinates_json() -> Json {
    obj(vec![
        ("type", Json::Str(s("crate"))),
        ("provider", Json::Str(s("cratesio"))),
        ("name", Json::Str(s("syn"))),
        ("revision", Json::Str(s("1.0.14"))),
    ])
}

fn license_score_json() -> Json {
    obj(vec![
        ("total", Json::UInt(80)),
        ("declared", Json::UInt(30)),
        ("discovered", Json::UInt(10)),
        ("consistency", Json::UInt(15)),
        ("spdx", Json::UInt(15)),
        ("texts", Json::UInt(10)),
    ])
}

fn licensed_json() -> Json {
    obj(vec![
        ("declared", Json::Str(s("MIT OR Apache-2.0"))),
        (
            "facets",
            obj(vec![(
                "core",
                obj(vec![
                    (
                        "attribution",
                        obj(vec![
                            ("unknown", Json::UInt(1)),
                            ("parties", Json::Arr(vec![Json::Str(s("David Tolnay"))])),
                        ]),
                    ),
                    (
                        "discovered",
                        obj(vec![
                            ("unknown", Json::UInt(0)),
                            ("expressions", Json::Arr(vec![Json::Str(s("MIT"))])),
                        ]),
                    ),
                    ("files", Json::UInt(24)),
                ]),
            )]),
        ),
        ("toolScore", license_score_json()),
        ("score", license_score_json()),
    ])
}

fn scores_json() -> Json {
    obj(vec![("effective", Json::UInt(88)), ("tool", Json::UInt(92))])
}

fn described_json() -> Json {
    obj(vec![
        ("releaseDate", Json::Str(s("2020-01-14"))),
        ("projectWebsite", Json::Str(s("https://example.invalid/syn"))),
        (
            "urls",
            obj(vec![("registry", Json::Str(s("https://crates.io/crates/syn")))]),
        ),
        (
            "hashes",
            obj(vec![("sha1", Json::Str(s("aaaa")))]),
        ),
        ("files", Json::UInt(24)),
        ("tools", Json::Arr(vec![Json::Str(s("scancode/3.2.2"))])),
        (
            "toolScore",
            obj(vec![
                ("total", Json::UInt(90)),
                ("date", Json::UInt(30)),
                ("source", Json::UInt(60)),
            ]),
        ),
        (
            "score",
            obj(vec![
                ("total", Json::UInt(90)),
                ("date", Json::UInt(30)),
                ("source", Json::UInt(60)),
            ]),
        ),
    ])
}

fn definition_json(described: Json) -> Json {
    obj(vec![
        ("coordinates", coordinates_json()),
        ("described", described),
        ("licensed", licensed_json()),
        ("files", Json::Arr(vec![])),
        ("scores", scores_json()),
    ])
}

#[test]
fn batch_response_with_null_described() {
    let batch = obj(vec![(
        "crate/cratesio/-/syn/1.0.14",
        definition_json(Json::Null),
    )]);
    let r = GetResponse::try_from_json(&batch).unwrap();
    assert_eq!(r.definitions.len(), 1);
    let d = &r.definitions[0];
    assert!(d.described.is_none());
    assert_eq!(d.coordinates.shape, Shape::Crate);
    assert_eq!(d.coordinates.provider, Provider::CratesIo);
    assert_eq!(d.coordinates.name, "syn");
    assert_eq!(d.coordinates.revision, CoordVersion::Semver(s("1.0.14")));
    let licensed = d.licensed.as_ref().unwrap();
    assert_eq!(licensed.declared, "MIT OR Apache-2.0");
    assert_eq!(licensed.facets.core.files, 24);
    assert_eq!(licensed.score.total, 80);
    assert!(d.files.is_empty());
    assert_eq!(d.scores, TopLevelScore { effective: 88, tool: 92 });
}

#[test]
fn invalid_described_value_is_tolerated() {
    let d = Definition::try_from_json(&definition_json(Json::UInt(7))).unwrap();
    assert!(d.described.is_none());
    assert!(d.licensed.is_some());
}

#[test]
fn valid_described_value_is_kept() {
    let d = Definition::try_from_json(&definition_json(described_json())).unwrap();
    let desc = d.described.unwrap();
    assert_eq!(desc.release_date, "2020-01-14");
    assert_eq!(desc.project_website, Some(s("https://example.invalid/syn")));
    assert_eq!(desc.urls.len(), 1);
    assert_eq!(desc.urls[0].0, "registry");
    assert_eq!(desc.hashes.sha1, "aaaa");
    assert_eq!(desc.hashes.sha256, None);
    assert_eq!(desc.files, 24);
    assert_eq!(desc.tools, vec![s("scancode/3.2.2")]);
    assert_eq!(desc.tool_score.total, 90);
    assert!(desc.source_location.is_none());
}

#[test]
fn missing_described_key_is_fatal() {
    let j = obj(vec![
        ("coordinates", coordinates_json()),
        ("licensed", licensed_json()),
        ("files", Json::Arr(vec![])),
        ("scores", scores_json()),
    ]);
    assert_eq!(
        Definition::try_from_json(&j),
        Err(DecodeError::MissingField(s("described")))
    );
}

#[test]
fn duplicate_recognized_key_is_fatal() {
    let j = obj(vec![
        ("coordinates", coordinates_json()),
        ("described", Json::Null),
        ("described", Json::Null),
        ("licensed", licensed_json()),
    ]);
    assert_eq!(
        Definition::try_from_json(&j),
        Err(DecodeError::DuplicateField(s("described")))
    );
}

#[test]
fn unrecognized_keys_are_ignored() {
    let j = obj(vec![
        ("coordinates", coordinates_json()),
        ("described", Json::Null),
        ("licensed", Json::Null),
        ("somethingNew", Json::Bool(true)),
    ]);
    let d = Definition::try_from_json(&j).unwrap();
    assert!(d.described.is_none());
    assert!(d.licensed.is_none());
    assert!(d.files.is_empty());
    assert_eq!(d.scores, TopLevelScore { effective: 0, tool: 0 });
}

#[test]
fn bad_coordinates_are_fatal() {
    let j = obj(vec![
        (
            "coordinates",
            obj(vec![
                ("type", Json::Str(s("pod"))),
                ("provider", Json::Str(s("cratesio"))),
                ("name", Json::Str(s("syn"))),
                ("revision", Json::Str(s("1.0.14"))),
            ]),
        ),
        ("described", Json::Null),
        ("licensed", Json::Null),
    ]);
    assert_eq!(
        Definition::try_from_json(&j),
        Err(DecodeError::UnknownShape(s("pod")))
    );
}

#[test]
fn invalid_release_date_invalidates_description() {
    let mut desc = described_json();
    if let Json::Obj(ref mut members) = desc {
        members[0].1 = Json::Str(s("2020-13-40"));
    }
    assert_eq!(
        decode_description(&desc),
        Err(DecodeError::InvalidDate(s("2020-13-40")))
    );
    // inside a definition the failure downgrades to an absent description
    let d = Definition::try_from_json(&definition_json(desc)).unwrap();
    assert!(d.described.is_none());
}

#[test]
fn out_of_range_score_is_fatal() {
    let j = obj(vec![
        ("coordinates", coordinates_json()),
        ("described", Json::Null),
        ("licensed", Json::Null),
        ("scores", obj(vec![("effective", Json::UInt(256)), ("tool", Json::UInt(1))])),
    ]);
    assert_eq!(Definition::try_from_json(&j), Err(DecodeError::OutOfRange));
}

#[test]
fn non_integer_number_is_rejected() {
    let j = obj(vec![
        ("coordinates", coordinates_json()),
        ("described", Json::Null),
        ("licensed", Json::Null),
        ("scores", obj(vec![("effective", Json::NonUInt), ("tool", Json::UInt(1))])),
    ]);
    assert_eq!(Definition::try_from_json(&j), Err(DecodeError::NotUnsigned));
}

#[test]
fn batch_decode_keeps_payload_order() {
    let batch = obj(vec![
        ("first", definition_json(Json::Null)),
        ("second", {
            let mut j = definition_json(Json::Null);
            if let Json::Obj(ref mut members) = j {
                if let Json::Obj(ref mut coords) = members[0].1 {
                    coords[2].1 = Json::Str(s("quote"));
                }
            }
            j
        }),
    ]);
    let r = GetResponse::try_from_json(&batch).unwrap();
    assert_eq!(r.definitions.len(), 2);
    assert_eq!(r.definitions[0].coordinates.name, "syn");
    assert_eq!(r.definitions[1].coordinates.name, "quote");
}

#[test]
fn batch_decode_requires_an_object() {
    assert_eq!(
        GetResponse::try_from_json(&Json::Arr(vec![])),
        Err(DecodeError::NotObject)
    );
}

#[test]
fn non_success_status_is_reported_without_decoding() {
    let body = Json::Null;
    match GetResponse::try_from_parts(404, &body) {
        Err(Error::HttpStatus(e)) => assert_eq!(e.code, 404),
        other => panic!("expected a status error, got {:?}", other),
    }
}

#[test]
fn success_status_decodes_the_payload() {
    let batch = obj(vec![(
        "crate/cratesio/-/syn/1.0.14",
        definition_json(Json::Null),
    )]);
    let r = GetResponse::try_from_parts(200, &batch).unwrap();
    assert_eq!(r.definitions.len(), 1);

    match GetResponse::try_from_parts(200, &Json::Bool(false)) {
        Err(Error::Json(DecodeError::NotObject)) => {},
        other => panic!("expected a decode error, got {:?}", other),
    }
}

#[test]
fn def_coords_display_text() {
    let batch = definition_json(Json::Null);
    let d = Definition::try_from_json(&batch).unwrap();
    assert_eq!(d.coordinates.to_text(), "crate/cratesio/syn/1.0.14");
}
