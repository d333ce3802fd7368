use clearly_defined::coordinate::{CoordVersion, Coordinate, Provider, Shape};
use clearly_defined::requests::{
    encode_string_array, get, get_with_root, request_content_type, request_method,
};

fn coord(name: &str, version: &str) -> Coordinate {
    Coordinate {
        shape: Shape::Crate,
        provider: Provider::CratesIo,
        namespace: None,
        name: String::from(name),
        version: CoordVersion::from_str(version),
        curation_pr: None,
    }
}

fn body_texts(body: &[u8]) -> Vec<String> {
    serde_json::from_slice::<Vec<String>>(body).expect("request body must be a JSON string array")
}

#[test]
fn single_chunk_request() {
    let coords = vec![coord("syn", "1.0.14"), coord("quote", "1.0.2")];
    let reqs = get(100, &coords);
    assert_eq!(reqs.len(), 1);
    assert_eq!(reqs[0].uri, "https://api.clearlydefined.io/definitions");
    assert_eq!(
        body_texts(&reqs[0].body),
        vec![
            String::from("crate/cratesio/-/syn/1.0.14"),
            String::from("crate/cratesio/-/quote/1.0.2"),
        ]
    );
}

#[test]
fn chunking_splits_by_count() {
    let coords: Vec<Coordinate> =
        (0..5).map(|i| coord(&format!("c{}", i), "1.0.0")).collect();
    let reqs = get(2, &coords);
    assert_eq!(reqs.len(), 3);
    let sizes: Vec<usize> = reqs.iter().map(|r| body_texts(&r.body).len()).collect();
    assert_eq!(sizes, vec![2, 2, 1]);
    let all: Vec<String> = reqs.iter().flat_map(|r| body_texts(&r.body)).collect();
    let expected: Vec<String> =
        (0..5).map(|i| format!("crate/cratesio/-/c{}/1.0.0", i)).collect();
    assert_eq!(all, expected);
}

#[test]
fn chunk_size_is_capped_at_the_service_limit() {
    let coords: Vec<Coordinate> =
        (0..1001).map(|i| coord(&format!("c{}", i), "1.0.0")).collect();
    let reqs = get(5000, &coords);
    assert_eq!(reqs.len(), 2);
    assert_eq!(body_texts(&reqs[0].body).len(), 1000);
    assert_eq!(body_texts(&reqs[1].body).len(), 1);
}

#[test]
fn no_coordinates_no_requests() {
    let reqs = get(10, &Vec::new());
    assert!(reqs.is_empty());
}

#[test]
fn custom_root_is_used() {
    let coords = vec![coord("syn", "1.0.14")];
    let reqs = get_with_root("http://localhost:8080", 10, &coords);
    assert_eq!(reqs.len(), 1);
    assert_eq!(reqs[0].uri, "http://localhost:8080/definitions");
}

#[test]
fn fixed_method_and_headers() {
    assert_eq!(request_method(), "POST");
    assert_eq!(request_content_type(), "application/json");
}

#[test]
fn encoder_escapes_like_json() {
    let texts = vec![
        String::from("plain"),
        String::from("with \"quotes\" and \\backslash\\"),
        String::from("control\tbytes\nhere"),
        String::from("unicode: caf\u{e9} \u{2713}"),
    ];
    let bytes = encode_string_array(&texts);
    assert_eq!(body_texts(&bytes), texts);
}

#[test]
fn encoder_output_is_exact_for_a_simple_array() {
    let texts = vec![String::from("a"), String::from("b")];
    assert_eq!(encode_string_array(&texts), b"[\"a\",\"b\"]".to_vec());
    let empty: Vec<String> = Vec::new();
    assert_eq!(encode_string_array(&empty), b"[]".to_vec());
}
