use osv::codec::{json_to_vuln, range_to_json, reference_to_json, severity_to_json, event_to_json, vuln_to_json, ecosystem_from_tag, ecosystem_tag_string};
use osv::json::{decode_json, encode_json, JsonValue};
use osv::protocol::{decode_response_body, encode_request, interpret_query_response, interpret_vulnerability_response, vulnerability_url, ApiError};
use osv::{Credit, Ecosystem, Event, Package, Range, RangeType, Reference, ReferenceType, Request, Severity, SeverityType, Vulnerability};

fn bare_vuln() -> Vulnerability {
    Vulnerability {
        schema_version: "1.3.0".to_string(),
        id: "OSV-2020-484".to_string(),
        published: "2020-01-01T00:00:00Z".to_string(),
        modified: "2020-01-02T00:00:00Z".to_string(),
        withdrawn: None,
        aliases: None,
        related: None,
        summary: None,
        details: None,
        affected: vec![],
        references: None,
        severity: None,
        credits: None,
        database_specific: None,
    }
}

#[test]
fn test_no_serialize_null_fields() {
    let vuln = bare_vuln();
    let str_json = encode_json(&vuln_to_json(&vuln));
    assert!(!str_json.contains("withdrawn"));
    assert!(!str_json.contains("aliases"));
    assert!(!str_json.contains("related"));
    assert!(!str_json.contains("summary"));
    assert!(!str_json.contains("details"));
    assert!(!str_json.contains("references"));
    assert!(!str_json.contains("severity"));
    assert!(!str_json.contains("credits"));
    assert!(!str_json.contains("database_specific"));
}

#[test]
fn round_trip_full_record() {
    let mut v = bare_vuln();
    v.withdrawn = Some("2021-01-01T00:00:00Z".to_string());
    v.aliases = Some(vec!["CVE-2020-1".to_string()]);
    v.summary = Some("a \"quoted\" summary\nwith lines".to_string());
    v.details = Some("details".to_string());
    v.affected = vec![osv::Affected {
        package: Package {
            name: "jinja2".to_string(),
            ecosystem: Ecosystem::PyPI,
            purl: None,
        },
        ranges: vec![Range {
            range_type: RangeType::Git,
            repo: Some("https://example.com/r.git".to_string()),
            events: vec![Event::Introduced("0".to_string()), Event::Fixed("1.2.3".to_string())],
        }],
        versions: Some(vec!["2.4.1".to_string()]),
        ecosystem_specific: None,
        database_specific: Some(JsonValue::Num("7".to_string())),
    }];
    v.references = Some(vec![Reference {
        reference_type: ReferenceType::Undefined,
        url: "https://example.com".to_string(),
    }]);
    v.severity = Some(vec![Severity {
        severity_type: SeverityType::CVSSv3,
        score: "CVSS:3.1/AV:N".to_string(),
    }]);
    v.credits = Some(vec![Credit { name: "a researcher".to_string(), contact: vec![] }]);
    let text = encode_json(&vuln_to_json(&v));
    let back = json_to_vuln(&decode_json(&text).expect("parses")).expect("decodes");
    assert_eq!(back, v);
}

#[test]
fn tag_fidelity() {
    let r = Range { range_type: RangeType::Git, repo: None, events: vec![] };
    assert!(encode_json(&range_to_json(&r)).contains("\"GIT\""));
    let s = Severity { severity_type: SeverityType::CVSSv3, score: "x".to_string() };
    assert!(encode_json(&severity_to_json(&s)).contains("\"CVSS_V3\""));
    let x = Reference { reference_type: ReferenceType::Undefined, url: "u".to_string() };
    assert!(encode_json(&reference_to_json(&x)).contains("\"NONE\""));
    let e = Event::Fixed("1.2.3".to_string());
    assert_eq!(encode_json(&event_to_json(&e)), "{\"fixed\":\"1.2.3\"}");
}

#[test]
fn unknown_ecosystem_round_trips() {
    let eco = ecosystem_from_tag("SomeNewRegistry".to_string());
    assert_eq!(eco, Ecosystem::Other("SomeNewRegistry".to_string()));
    assert_eq!(ecosystem_tag_string(&eco), "SomeNewRegistry".to_string());
}

#[test]
fn response_discrimination() {
    let one = "{\"vulns\": [{\"schema_version\":\"1.3.0\",\"id\":\"OSV-2020-484\",\"published\":\"2020-01-01T00:00:00Z\",\"modified\":\"2020-01-02T00:00:00Z\",\"affected\":[]}]}";
    match decode_response_body(one) {
        Ok(Some(list)) => {
            assert_eq!(list.len(), 1);
            assert_eq!(list[0].id, "OSV-2020-484");
        }
        other => panic!("expected one record, got {:?}", other),
    }
    assert_eq!(decode_response_body("{}"), Ok(None));
    assert_eq!(decode_response_body("{\"vulns\": []}"), Ok(Some(vec![])));
    assert!(matches!(decode_response_body("not json"), Err(ApiError::SerializationError(_))));
}

#[test]
fn not_found_identifies_package_not_version() {
    let req = Request::PackageQuery {
        version: "2.4.1".to_string(),
        package: Package { name: "jinja2".to_string(), ecosystem: Ecosystem::PyPI, purl: None },
    };
    match interpret_query_response(&req, 404, "") {
        Err(ApiError::NotFound(m)) => assert_eq!(m, "package - `jinja2`"),
        other => panic!("expected not-found, got {:?}", other),
    }
    let req2 = Request::CommitQuery { commit: "zzzz".to_string() };
    match interpret_query_response(&req2, 404, "") {
        Err(ApiError::NotFound(m)) => assert_eq!(m, "commit - `zzzz`"),
        other => panic!("expected not-found, got {:?}", other),
    }
}

#[test]
fn query_request_wire_forms() {
    let req = Request::CommitQuery { commit: "6879efc2c1596d11a6a6ad296f80063b558d5e0f".to_string() };
    assert_eq!(
        encode_request(&req),
        "{\"commit\":\"6879efc2c1596d11a6a6ad296f80063b558d5e0f\"}"
    );
    let req2 = Request::PackageQuery {
        version: "2.4.1".to_string(),
        package: Package { name: "jinja2".to_string(), ecosystem: Ecosystem::PyPI, purl: None },
    };
    assert_eq!(
        encode_request(&req2),
        "{\"version\":\"2.4.1\",\"package\":{\"name\":\"jinja2\",\"ecosystem\":\"PyPI\"}}"
    );
}

#[test]
fn vulnerability_lookup_protocol() {
    assert_eq!(
        vulnerability_url("OSV-2020-484"),
        Ok("https://api.osv.dev/v1/vulns/OSV-2020-484".to_string())
    );
    let body = "{\"schema_version\":\"1.3.0\",\"id\":\"OSV-2020-484\",\"published\":\"2020-01-01T00:00:00Z\",\"modified\":\"2020-01-02T00:00:00Z\",\"affected\":[]}";
    match interpret_vulnerability_response("OSV-2020-484", 200, body) {
        Ok(v) => assert_eq!(v.id, "OSV-2020-484"),
        other => panic!("expected a record, got {:?}", other),
    }
    match interpret_vulnerability_response("CVE-2014-0160", 404, "") {
        Err(ApiError::NotFound(m)) => assert_eq!(m, "CVE-2014-0160"),
        other => panic!("expected not-found, got {:?}", other),
    }
}

#[test]
fn json_text_forms() {
    assert_eq!(decode_json("  {\"a\": [1.5e3, true, null, \"\\u0041\\n\"]} "),
        Some(JsonValue::Obj(vec![("a".to_string(), JsonValue::Arr(vec![
            JsonValue::Num("1.5e3".to_string()),
            JsonValue::Bool(true),
            JsonValue::Null,
            JsonValue::Str("A\n".to_string()),
        ]))])));
    assert_eq!(decode_json("{\"a\":}"), None);
    assert_eq!(decode_json("01"), None);
    assert_eq!(decode_json("\"\\ud83d\\ude00\""), Some(JsonValue::Str("\u{1F600}".to_string())));
    let v = JsonValue::Str("a\"b\\c\u{7}".to_string());
    assert_eq!(encode_json(&v), "\"a\\\"b\\\\c\\u0007\"");
    assert_eq!(decode_json(&encode_json(&v)), Some(v));
}

#[test]
fn invalid_timestamp_refused() {
    let body = "{\"schema_version\":\"1.3.0\",\"id\":\"X-1\",\"published\":\"yesterday\",\"modified\":\"2020-01-02T00:00:00Z\",\"affected\":[]}";
    assert_eq!(decode_json(body).map(|j| json_to_vuln(&j)), Some(None));
}
