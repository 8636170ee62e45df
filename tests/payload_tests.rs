use discord_updater::payload::{parse_version_payload, PayloadError};
use discord_updater::version::Version;

#[test]
fn reads_version_key() {
    let v = parse_version_payload(br#"{"version": "0.0.59"}"#).unwrap();
    assert_eq!(v.to_text(), "0.0.59");
}

#[test]
fn reads_name_key() {
    let v = parse_version_payload(br#"{"name": "0.0.60", "pub_date": "x"}"#).unwrap();
    assert_eq!(v.to_text(), "0.0.60");
}

#[test]
fn version_key_comes_first() {
    let v = parse_version_payload(br#"{"name": "1.0.0", "version": "2.0.0"}"#).unwrap();
    assert_eq!(v.to_text(), "2.0.0");
}

#[test]
fn payload_round_trips() {
    for text in ["1.2.3", "0.0.59", "3.0.0-rc.1+b7"] {
        let w = Version::parse(text).unwrap();
        for key in ["version", "name"] {
            let doc = format!("{{\"{}\": \"{}\"}}", key, w.to_text());
            let back = parse_version_payload(doc.as_bytes()).unwrap();
            assert_eq!(back.to_text(), w.to_text());
            assert_eq!((back.major, back.minor, back.patch), (w.major, w.minor, w.patch));
            assert_eq!((back.pre, back.build), (w.pre.clone(), w.build.clone()));
        }
    }
}

#[test]
fn malformed_json_is_refused() {
    assert_eq!(parse_version_payload(b"{\"version\": ").unwrap_err(), PayloadError::NotJson);
    assert_eq!(parse_version_payload(b"").unwrap_err(), PayloadError::NotJson);
}

#[test]
fn missing_key_is_refused() {
    assert_eq!(parse_version_payload(br#"{"v": "1.0.0"}"#).unwrap_err(), PayloadError::MissingVersion);
    assert_eq!(parse_version_payload(br#"["1.0.0"]"#).unwrap_err(), PayloadError::MissingVersion);
}

#[test]
fn non_text_version_is_refused() {
    assert_eq!(parse_version_payload(br#"{"version": 1}"#).unwrap_err(), PayloadError::VersionNotText);
}

#[test]
fn non_semver_text_is_refused() {
    assert_eq!(parse_version_payload(br#"{"version": "1.0"}"#).unwrap_err(), PayloadError::InvalidVersion);
}
