use gurl::json::{escape_json, json_string};
use gurl::num::{i32_to_dec, parse_i32_token, usize_to_dec};
use gurl::registry::{delete_report, filtered_delete_summary, identity_payload, select_targets,
    selector_from, upload_payload, DeleteSelector, Deriv, RegistryClient, RegistryError};
use gurl::transport::{parse_response, TransportClient};

#[test]
fn decimal_rendering() {
    assert_eq!(usize_to_dec(0).as_str(), "0");
    assert_eq!(usize_to_dec(12345).as_str(), "12345");
    assert_eq!(i32_to_dec(-42).as_str(), "-42");
    assert_eq!(i32_to_dec(2147483647).as_str(), "2147483647");
}

#[test]
fn integer_tokens() {
    assert_eq!(parse_i32_token("404"), Some(404));
    assert_eq!(parse_i32_token("+123"), Some(123));
    assert_eq!(parse_i32_token("-2147483648"), Some(-2147483648));
    assert_eq!(parse_i32_token("2147483647"), Some(2147483647));
    assert_eq!(parse_i32_token("2147483648"), None);
    assert_eq!(parse_i32_token("0012"), Some(12));
    assert_eq!(parse_i32_token(""), None);
    assert_eq!(parse_i32_token("-"), None);
    assert_eq!(parse_i32_token("12a"), None);
}

#[test]
fn json_escaping_matches_a_real_decoder() {
    let tricky = "a\"b\\c\nd\te\u{1}f";
    assert_eq!(escape_json(tricky).as_str(), "a\\\"b\\\\c\\nd\\te\\u0001f");
    let literal = json_string(tricky);
    let decoded: String = serde_json::from_str(literal.as_str()).unwrap();
    assert_eq!(decoded.as_str(), tricky);
}

#[test]
fn plain_text_passes_through() {
    assert_eq!(escape_json("plain text, no escapes").as_str(), "plain text, no escapes");
    assert_eq!(json_string("x").as_str(), "\"x\"");
    // only controls below space are escaped; delete and non-ASCII pass through
    assert_eq!(escape_json("\u{7f}\u{e9}").as_str(), "\u{7f}\u{e9}");
}

#[test]
fn identity_payload_shape() {
    let p = identity_payload("auto-merge", "release");
    assert_eq!(
        p.as_str(),
        "{\"id\":null,\"name\":\"auto-merge\",\"storeHash\":\"\",\
         \"branch\":\"release\",\"force\":null,\"date_added\":null}"
    );
    let v: serde_json::Value = serde_json::from_str(p.as_str()).unwrap();
    assert_eq!(v["name"], serde_json::Value::String("auto-merge".to_owned()));
    assert!(v["id"].is_null());
}

#[test]
fn upload_payload_shape() {
    let p = upload_payload("/nix/store/abc", "host1", "main", Some(true),
        "2024-05-01T10:00:00+02:00");
    assert_eq!(
        p.as_str(),
        "{\"storeHash\":\"/nix/store/abc\",\"name\":\"host1\",\"branch\":\"main\",\
         \"force\":true,\"date_added\":\"2024-05-01T10:00:00+02:00\"}"
    );
    let none = upload_payload("h", "n", "b", None, "d");
    assert!(none.contains("\"force\":null"));
}

#[test]
fn registry_requests() {
    let client = RegistryClient::new(TransportClient::new("reg.example".to_owned(), 8081));
    let list = client.list_request();
    assert!(list.starts_with("GET /derivations HTTP/1.1\r\nHost: reg.example\r\n"));
    let del = client.delete_exact_request("a", "main");
    assert!(del.starts_with("DELETE /derivations/ HTTP/1.1\r\n"));
    assert!(del.contains("\"name\":\"a\""));
    let res = client.resolve_request("a", "main");
    assert!(res.starts_with("GET /derivations/ HTTP/1.1\r\n"));
    let up = client.upsert_request("{\"x\":1}");
    assert!(up.starts_with("POST /derivations HTTP/1.1\r\n"));
    assert!(up.ends_with("\r\n\r\n{\"x\":1}"));
}

fn record(name: &str, branch: &str) -> Deriv {
    Deriv {
        id: None,
        name: name.to_owned(),
        store_hash: String::new(),
        branch: branch.to_owned(),
        force: None,
        date_added: None,
    }
}

#[test]
fn wildcard_selectors() {
    let wild = "_".to_owned();
    let release = "release".to_owned();
    let name = "svc".to_owned();
    assert!(matches!(
        selector_from(&release, &wild),
        DeleteSelector::ByBranch { branch } if branch == "release"
    ));
    assert!(matches!(
        selector_from(&wild, &name),
        DeleteSelector::ByName { name } if name == "svc"
    ));
    // both wildcards, and neither, fall through to the exact form unchanged
    assert!(matches!(
        selector_from(&wild, &wild),
        DeleteSelector::Exact { name, branch } if name == "_" && branch == "_"
    ));
    assert!(matches!(
        selector_from(&release, &name),
        DeleteSelector::Exact { name, branch } if name == "svc" && branch == "release"
    ));
}

#[test]
fn filtered_delete_picks_exactly_the_branch() {
    let records = vec![record("a", "release"), record("b", "release"), record("c", "main")];
    let sel = selector_from(&"release".to_owned(), &"_".to_owned());
    let targets = select_targets(&records, &sel);
    assert_eq!(targets.len(), 2);
    assert_eq!(targets[0].0.as_str(), "a");
    assert_eq!(targets[0].1.as_str(), "release");
    assert_eq!(targets[1].0.as_str(), "b");
    assert_eq!(targets[1].1.as_str(), "release");
}

#[test]
fn filtered_delete_by_name_spans_branches() {
    let records = vec![record("a", "release"), record("a", "main"), record("b", "main")];
    let sel = selector_from(&"_".to_owned(), &"a".to_owned());
    let targets = select_targets(&records, &sel);
    assert_eq!(targets.len(), 2);
    assert_eq!(targets[1].1.as_str(), "main");
}

#[test]
fn empty_match_set_is_an_error_not_a_silent_success() {
    let records = vec![record("c", "main")];
    let sel = selector_from(&"release".to_owned(), &"_".to_owned());
    let targets = select_targets(&records, &sel);
    assert!(targets.is_empty());
    let summary = filtered_delete_summary(&sel, false);
    assert!(matches!(
        summary,
        Err(RegistryError::NoMatch(m)) if m == "Failed to find any names for that branch."
    ));
    let sel2 = selector_from(&"_".to_owned(), &"ghost".to_owned());
    let summary2 = filtered_delete_summary(&sel2, false);
    assert!(matches!(
        summary2,
        Err(RegistryError::NoMatch(m)) if m == "Failed to find that name on any branch."
    ));
    assert!(filtered_delete_summary(&sel, true).is_ok());
}

#[test]
fn repeated_exact_delete_reports_the_servers_not_found() {
    // the second delete of the same record: the server answers 404 and the
    // client reports that answer instead of crashing
    let resp = parse_response("HTTP/1.1 404 Not Found\r\n\r\nno such derivation").unwrap();
    let report = delete_report(&"a".to_owned(), &"main".to_owned(), &resp);
    assert!(matches!(
        report,
        Err(RegistryError::Refused(line))
            if line == "ERROR: \"a\" on the branch \"main\": no such derivation"
    ));
}

#[test]
fn accepted_delete_reports_the_body() {
    let resp = parse_response("HTTP/1.1 200 OK\r\n\r\ndeleted").unwrap();
    let line = delete_report(&"a".to_owned(), &"main".to_owned(), &resp).unwrap();
    assert_eq!(line.as_str(), "a on the branch main: deleted");
}
