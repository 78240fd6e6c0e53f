use krsk::client::Decoded;
use krsk::Crateio;
use krsk::JsonValue;

fn jstr(s: &str) -> JsonValue {
    JsonValue::Str(s.to_owned())
}

fn entry(key: &str, v: JsonValue) -> (String, JsonValue) {
    (key.to_owned(), v)
}

fn author_object() -> JsonValue {
    JsonValue::Object(vec![
        entry("avatar", JsonValue::Null),
        entry("id", JsonValue::UInt(7)),
        entry("login", jstr("octo")),
        entry("name", jstr("Octo Cat")),
        entry("url", jstr("https://example.com/octo")),
    ])
}

/// A well-formed version entry with the given id, version string and feature
/// map (`None` stands for a version entry without a `features` field).
fn version_object(id: u64, num: &str, features: Option<JsonValue>) -> JsonValue {
    let mut fields = vec![
        entry("checksum", jstr("abc123")),
        entry("crate", jstr("demo")),
        entry("crate_size", JsonValue::UInt(1024)),
        entry("created_at", jstr("2024-01-02T03:04:05Z")),
        entry("downloads", JsonValue::UInt(10 + id)),
        entry("id", JsonValue::UInt(id)),
        entry("license", jstr("MIT")),
        entry("num", jstr(num)),
        entry("published_by", author_object()),
        entry("rust_version", JsonValue::Null),
        entry("updated_at", jstr("2024-01-02T03:04:05Z")),
        entry("yanked", JsonValue::Bool(false)),
    ];
    if let Some(f) = features {
        fields.push(entry("features", f));
    }
    JsonValue::Object(fields)
}

fn feature_map() -> JsonValue {
    JsonValue::Object(vec![
        entry("default", JsonValue::Array(vec![jstr("std")])),
        entry("std", JsonValue::Array(vec![])),
    ])
}

fn crate_object(categories: Option<JsonValue>) -> JsonValue {
    let mut fields = vec![
        entry("created_at", jstr("2020-05-06T07:08:09Z")),
        entry("description", jstr("A demo crate")),
        entry("documentation", JsonValue::Null),
        entry("downloads", JsonValue::UInt(123456)),
        entry("exact_match", JsonValue::Bool(true)),
        entry("homepage", JsonValue::Null),
        entry("max_stable_version", jstr("2.1.0")),
        entry("max_version", jstr("2.1.0")),
        entry("name", jstr("demo")),
        entry("recent_downloads", JsonValue::UInt(789)),
        entry("repository", jstr("https://example.com/demo.git")),
        entry("updated_at", jstr("2024-01-02T03:04:05Z")),
    ];
    if let Some(c) = categories {
        fields.push(entry("categories", c));
    }
    JsonValue::Object(fields)
}

/// A document with two well-formed versions: the most recent one first, with
/// a feature map, and an older one without.
fn document(categories: Option<JsonValue>) -> JsonValue {
    JsonValue::Object(vec![
        entry("crate", crate_object(categories)),
        entry(
            "keywords",
            JsonValue::Array(vec![jstr("web"), jstr("registry")]),
        ),
        entry(
            "versions",
            JsonValue::Array(vec![
                version_object(42, "2.1.0", Some(feature_map())),
                version_object(41, "2.0.3", None),
            ]),
        ),
    ])
}

#[test]
fn decodes_well_formed_document() {
    let record = Crateio::from_document(&document(None)).unwrap();
    let data = record.get_data();
    assert_eq!(data.name, "demo");
    assert_eq!(data.downloads, 123456);
    assert_eq!(data.recent_downloads, 789);
    assert!(data.exact_match);
    assert_eq!(data.description.as_deref(), Some("A demo crate"));
    assert_eq!(data.documentation, None);
    assert_eq!(data.max_stable_version.as_deref(), Some("2.1.0"));
    assert!(!record.versions.is_empty());
}

#[test]
fn scenario_active_crate_record() {
    // The shape a well-known, actively maintained crate comes back in:
    // both download counters present, a non-empty version sequence, and a
    // version string of the major.minor.patch form.
    let record = Crateio::from_document(&document(None)).unwrap();
    let data = record.get_data();
    assert!(data.downloads > 0);
    assert!(data.recent_downloads > 0);
    let versions = record.get_all_versions();
    assert!(!versions.is_empty());
    let num = &versions[0].num;
    let parts: Vec<&str> = num.split('.').collect();
    assert_eq!(parts.len(), 3);
    assert!(parts.iter().all(|p| p.chars().all(|c| c.is_ascii_digit())));
}

#[test]
fn keywords_are_kept_opaque() {
    // A present keyword array is stored as it arrived; a missing one is absence.
    let record = Crateio::from_document(&document(None)).unwrap();
    let kws = record.keywords.as_ref().expect("keywords were present");
    assert_eq!(kws.len(), 2);
    assert_eq!(kws[0], jstr("web"));
    let doc = JsonValue::Object(vec![
        entry("crate", crate_object(None)),
        entry("versions", JsonValue::Array(vec![])),
    ]);
    let record = Crateio::from_document(&doc).unwrap();
    assert_eq!(record.keywords, None);
}

#[test]
fn rejects_documents_of_the_wrong_shape() {
    // Not an object at all.
    assert!(Crateio::from_document(&jstr("nope")).is_err());
    // No `versions` field.
    let doc = JsonValue::Object(vec![entry("crate", crate_object(None))]);
    assert!(Crateio::from_document(&doc).is_err());
    // `versions` present but not an array.
    let doc = JsonValue::Object(vec![
        entry("crate", crate_object(None)),
        entry("versions", JsonValue::UInt(3)),
    ]);
    assert!(Crateio::from_document(&doc).is_err());
    // No `crate` field.
    let doc = JsonValue::Object(vec![entry("versions", JsonValue::Array(vec![]))]);
    assert!(Crateio::from_document(&doc).is_err());
    // Crate metadata with a malformed required field.
    let doc = JsonValue::Object(vec![
        entry(
            "crate",
            JsonValue::Object(vec![
                entry("created_at", jstr("2020-05-06T07:08:09Z")),
                entry("description", JsonValue::Null),
                entry("documentation", JsonValue::Null),
                entry("downloads", jstr("not a number")),
                entry("exact_match", JsonValue::Bool(true)),
                entry("homepage", JsonValue::Null),
                entry("max_stable_version", JsonValue::Null),
                entry("max_version", JsonValue::Null),
                entry("name", jstr("demo")),
                entry("recent_downloads", JsonValue::UInt(789)),
                entry("repository", JsonValue::Null),
                entry("updated_at", jstr("2024-01-02T03:04:05Z")),
            ]),
        ),
        entry("versions", JsonValue::Array(vec![])),
    ]);
    assert!(Crateio::from_document(&doc).is_err());
    // A `keywords` field that is neither an array nor null.
    let doc = JsonValue::Object(vec![
        entry("crate", crate_object(None)),
        entry("versions", JsonValue::Array(vec![])),
        entry("keywords", JsonValue::OtherNumber),
    ]);
    assert!(Crateio::from_document(&doc).is_err());
}

#[test]
fn version_lookup_is_zero_based() {
    let record = Crateio::from_document(&document(None)).unwrap();
    match record.get_version(0) {
        Decoded::Present(v) => {
            assert_eq!(v.id, 42);
            assert_eq!(v.num, "2.1.0");
            assert_eq!(v.crate_name, "demo");
            assert_eq!(v.checksum, "abc123");
            assert_eq!(v.crate_size, Some(1024));
            assert_eq!(v.license.as_deref(), Some("MIT"));
            assert_eq!(v.rust_version, None);
            assert!(!v.yanked);
            assert_eq!(v.published_by.login, "octo");
            assert_eq!(v.published_by.id, 7);
            assert_eq!(v.published_by.avatar, None);
        }
        _ => panic!("version 0 should decode"),
    }
    match record.get_version(1) {
        Decoded::Present(v) => assert_eq!(v.num, "2.0.3"),
        _ => panic!("version 1 should decode"),
    }
}

#[test]
fn version_lookup_out_of_range_is_absent() {
    let record = Crateio::from_document(&document(None)).unwrap();
    assert_eq!(record.get_version(2), Decoded::Absent);
    assert_eq!(record.get_version(10_000_000), Decoded::Absent);
}

#[test]
fn version_lookup_is_idempotent() {
    let record = Crateio::from_document(&document(None)).unwrap();
    assert_eq!(record.get_version(0), record.get_version(0));
    assert_eq!(record.get_version(1), record.get_version(1));
    assert_eq!(record.get_version(99), record.get_version(99));
}

#[test]
fn malformed_element_does_not_corrupt_siblings() {
    let doc = JsonValue::Object(vec![
        entry("crate", crate_object(None)),
        entry(
            "versions",
            JsonValue::Array(vec![
                version_object(42, "2.1.0", None),
                jstr("not a version"),
                version_object(40, "2.0.2", None),
            ]),
        ),
    ]);
    let record = Crateio::from_document(&doc).unwrap();
    assert!(matches!(record.get_version(0), Decoded::Present(_)));
    assert_eq!(record.get_version(1), Decoded::Malformed);
    assert!(matches!(record.get_version(2), Decoded::Present(_)));
    // The best-effort sweep passes over the bad element only.
    let all = record.get_all_versions();
    assert_eq!(all.len(), 2);
    assert_eq!(all[0].num, "2.1.0");
    assert_eq!(all[1].num, "2.0.2");
}

#[test]
fn all_versions_is_complete_on_well_formed_documents() {
    let record = Crateio::from_document(&document(None)).unwrap();
    let all = record.get_all_versions();
    assert_eq!(all.len(), record.versions.len());
    assert_eq!(all.len(), 2);
    assert_eq!(all[0].num, "2.1.0");
    assert_eq!(all[1].num, "2.0.3");
}

#[test]
fn features_come_from_the_feature_map_keys() {
    let record = Crateio::from_document(&document(None)).unwrap();
    assert_eq!(
        record.get_features(0),
        Some(vec!["default".to_owned(), "std".to_owned()])
    );
    // The older version carries no feature map.
    assert_eq!(record.get_features(1), None);
    // Out of range: absence, not an error.
    assert_eq!(record.get_features(10_000_000), None);
}

#[test]
fn last_features_are_the_features_at_index_zero() {
    let record = Crateio::from_document(&document(None)).unwrap();
    assert_eq!(record.get_last_features(), record.get_features(0));
    assert_eq!(
        record.get_last_features(),
        Some(vec!["default".to_owned(), "std".to_owned()])
    );
}

#[test]
fn empty_or_odd_feature_maps() {
    // An empty feature map gives an empty name list, not absence.
    let doc = JsonValue::Object(vec![
        entry("crate", crate_object(None)),
        entry(
            "versions",
            JsonValue::Array(vec![
                version_object(1, "0.1.0", Some(JsonValue::Object(vec![]))),
                version_object(0, "0.0.1", Some(jstr("odd"))),
                version_object(2, "0.1.1", Some(JsonValue::Null)),
            ]),
        ),
    ]);
    let record = Crateio::from_document(&doc).unwrap();
    assert_eq!(record.get_features(0), Some(vec![]));
    // A feature map that is not an object yields absence rather than a panic.
    assert_eq!(record.get_features(1), None);
    // An explicit null stands for no feature map at all.
    assert_eq!(record.get_features(2), None);
}

#[test]
fn categories_absent_only_without_the_field() {
    // No category field at all: absence.
    let record = Crateio::from_document(&document(None)).unwrap();
    assert_eq!(record.get_data().get_categories(), None);
    // Present but empty: an empty list, not absence.
    let record =
        Crateio::from_document(&document(Some(JsonValue::Array(vec![])))).unwrap();
    assert_eq!(record.get_data().get_categories(), Some(vec![]));
}

#[test]
fn categories_decode_with_empty_string_fallback() {
    let cats = JsonValue::Array(vec![jstr("web"), JsonValue::UInt(9), jstr("cli")]);
    let record = Crateio::from_document(&document(Some(cats))).unwrap();
    assert_eq!(
        record.get_data().get_categories(),
        Some(vec!["web".to_owned(), String::new(), "cli".to_owned()])
    );
}

#[test]
fn object_lookup_takes_the_first_matching_key() {
    // Duplicate keys: the first entry wins, by the documented convention.
    let mut fields = vec![entry("num", jstr("9.9.9"))];
    if let JsonValue::Object(rest) = version_object(42, "2.1.0", None) {
        fields.extend(rest);
    } else {
        unreachable!();
    }
    let doc = JsonValue::Object(vec![
        entry("crate", crate_object(None)),
        entry("versions", JsonValue::Array(vec![JsonValue::Object(fields)])),
    ]);
    let record = Crateio::from_document(&doc).unwrap();
    match record.get_version(0) {
        Decoded::Present(v) => assert_eq!(v.num, "9.9.9"),
        _ => panic!("version 0 should decode"),
    }
}

#[test]
fn version_with_missing_author_is_malformed() {
    let bad = JsonValue::Object(vec![
        entry("checksum", jstr("abc123")),
        entry("crate", jstr("demo")),
        entry("created_at", jstr("2024-01-02T03:04:05Z")),
        entry("downloads", JsonValue::UInt(10)),
        entry("id", JsonValue::UInt(1)),
        entry("num", jstr("1.0.0")),
        entry("updated_at", jstr("2024-01-02T03:04:05Z")),
        entry("yanked", JsonValue::Bool(false)),
    ]);
    let doc = JsonValue::Object(vec![
        entry("crate", crate_object(None)),
        entry("versions", JsonValue::Array(vec![bad])),
    ]);
    let record = Crateio::from_document(&doc).unwrap();
    assert_eq!(record.get_version(0), Decoded::Malformed);
    assert_eq!(record.get_all_versions().len(), 0);
}

#[test]
fn numbers_outside_u64_are_malformed_fields() {
    // A version whose downloads field is a number the library cannot hold
    // as an unsigned 64-bit integer (negative or fractional, say).
    let mut fields = Vec::new();
    if let JsonValue::Object(rest) = version_object(42, "2.1.0", None) {
        for (k, v) in rest {
            if k == "downloads" {
                fields.push(entry("downloads", JsonValue::OtherNumber));
            } else {
                fields.push((k, v));
            }
        }
    } else {
        unreachable!();
    }
    let doc = JsonValue::Object(vec![
        entry("crate", crate_object(None)),
        entry("versions", JsonValue::Array(vec![JsonValue::Object(fields)])),
    ]);
    let record = Crateio::from_document(&doc).unwrap();
    assert_eq!(record.get_version(0), Decoded::Malformed);
}
