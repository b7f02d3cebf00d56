use wifi_pass::profile::{parse, record_from_outline, CredentialRecord, ParseError};
use wifi_pass::xml::OutlineNode;

fn record(name: &str, secret: Option<&str>) -> (String, Option<String>) {
    (name.to_string(), secret.map(String::from))
}

fn pair(r: CredentialRecord) -> (String, Option<String>) {
    (r.network_name, r.secret)
}

#[test]
fn scenario_home_net_with_key() {
    let r = parse("<P><name>HomeNet</name><k><keyMaterial>abc123</keyMaterial></k></P>").unwrap();
    assert_eq!(pair(r), record("HomeNet", Some("abc123")));
}

#[test]
fn scenario_open_cafe_without_key() {
    let r = parse("<P><name>OpenCafe</name></P>").unwrap();
    assert_eq!(pair(r), record("OpenCafe", None));
}

#[test]
fn scenario_not_xml() {
    assert_eq!(parse("not-xml-at-all").unwrap_err(), ParseError::Malformed);
}

#[test]
fn malformed_unclosed_element() {
    assert_eq!(parse("<P><name>x</name>").unwrap_err(), ParseError::Malformed);
    assert_eq!(parse("").unwrap_err(), ParseError::Malformed);
}

#[test]
fn missing_name_with_key() {
    let r = parse("<P><keyMaterial>secret</keyMaterial></P>");
    assert_eq!(r.unwrap_err(), ParseError::MissingName);
}

#[test]
fn missing_name_without_key() {
    assert_eq!(parse("<P><ssid>x</ssid></P>").unwrap_err(), ParseError::MissingName);
}

#[test]
fn empty_name_element_is_missing_name() {
    assert_eq!(parse("<P><name/><keyMaterial>k</keyMaterial></P>").unwrap_err(), ParseError::MissingName);
}

#[test]
fn first_occurrences_win() {
    let doc = "<P><a><name>First</name></a><name>Second</name><keyMaterial>one</keyMaterial><keyMaterial>two</keyMaterial></P>";
    assert_eq!(pair(parse(doc).unwrap()), record("First", Some("one")));
}

#[test]
fn key_before_name_in_other_branch() {
    let doc = "<P><security><keyMaterial>pw</keyMaterial></security><SSIDConfig><name>Net</name></SSIDConfig></P>";
    assert_eq!(pair(parse(doc).unwrap()), record("Net", Some("pw")));
}

#[test]
fn empty_key_element_gives_no_secret() {
    assert_eq!(pair(parse("<P><name>N</name><keyMaterial></keyMaterial></P>").unwrap()), record("N", None));
}

#[test]
fn namespaced_profile_document() {
    let doc = "<?xml version=\"1.0\"?>\n<WLANProfile xmlns=\"http://www.microsoft.com/networking/WLAN/profile/v1\">\n\
        <name>Office</name><SSIDConfig><SSID><name>Office</name></SSID></SSIDConfig>\n\
        <MSM><security><sharedKey><keyType>passPhrase</keyType><protected>false</protected>\n\
        <keyMaterial>p@ss word!</keyMaterial></sharedKey></security></MSM></WLANProfile>";
    assert_eq!(pair(parse(doc).unwrap()), record("Office", Some("p@ss word!")));
}

#[test]
fn parse_twice_gives_same_result() {
    let docs = [
        "<P><name>HomeNet</name><k><keyMaterial>abc123</keyMaterial></k></P>",
        "<P><name>OpenCafe</name></P>",
        "not-xml-at-all",
        "<P/>",
    ];
    for d in docs {
        let a = parse(d).map(pair);
        let b = parse(d).map(pair);
        assert_eq!(a, b);
    }
}

#[test]
fn outline_record_takes_first_name_text() {
    let nodes = vec![
        OutlineNode { tag: String::new(), text: None },
        OutlineNode { tag: "name".to_string(), text: Some("A".to_string()) },
        OutlineNode { tag: "keyMaterial".to_string(), text: None },
        OutlineNode { tag: "keyMaterial".to_string(), text: Some("k".to_string()) },
    ];
    assert_eq!(pair(record_from_outline(&nodes).unwrap()), record("A", None));
}

#[test]
fn outline_record_missing_name() {
    let nodes = vec![OutlineNode { tag: "keyMaterial".to_string(), text: Some("k".to_string()) }];
    assert_eq!(record_from_outline(&nodes).unwrap_err(), ParseError::MissingName);
    assert_eq!(record_from_outline(&Vec::new()).unwrap_err(), ParseError::MissingName);
}
