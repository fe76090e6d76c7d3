use sign_firmware::manifest::{
    expected_asset_name, parse_version, resolve_update, strip_version_prefix, trim_body,
    version_gt, BuildFlavor, Version,
};
use sign_firmware::UpdateError;

const LOCAL: Version = Version { major: 1, minor: 2, patch: 3 };

fn response(tag: &str) -> Vec<u8> {
    let body = format!(
        "{{\"tag_name\":\"{tag}\",\"assets\":[\
         {{\"name\":\"sign-firmware.bin\",\"browser_download_url\":\"https://github.com/a/interactive\"}},\
         {{\"name\":\"sign-firmware-passive.bin\",\"browser_download_url\":\"https://github.com/a/passive\"}}]}}"
    );
    format!("HTTP/1.1 200 OK\r\nContent-Type: application/json\r\n\r\n{body}").into_bytes()
}

#[test]
fn newer_remote_release_yields_its_asset_url() {
    let r = resolve_update(&response("v1.3.0"), BuildFlavor::Interactive, LOCAL);
    assert_eq!(r, Ok(Some("https://github.com/a/interactive".to_string())));
}

#[test]
fn equal_remote_release_means_no_update() {
    let r = resolve_update(&response("v1.2.3"), BuildFlavor::Interactive, LOCAL);
    assert_eq!(r, Ok(None));
}

#[test]
fn older_remote_release_means_no_update() {
    let r = resolve_update(&response("v1.1.9"), BuildFlavor::Interactive, LOCAL);
    assert_eq!(r, Ok(None));
}

#[test]
fn each_flavor_gets_its_own_asset() {
    let r = resolve_update(&response("v2.0.0"), BuildFlavor::Passive, LOCAL);
    assert_eq!(r, Ok(Some("https://github.com/a/passive".to_string())));
}

#[test]
fn missing_expected_asset_is_a_protocol_violation() {
    let raw = b"HTTP/1.1 200 OK\r\n\r\n{\"tag_name\":\"v9.0.0\",\"assets\":[]}".to_vec();
    let r = resolve_update(&raw, BuildFlavor::Interactive, LOCAL);
    assert_eq!(r, Err(UpdateError::ProtocolViolation));
}

#[test]
fn missing_header_boundary_is_a_protocol_violation() {
    let raw = b"{\"tag_name\":\"v9.0.0\",\"assets\":[]}".to_vec();
    let r = resolve_update(&raw, BuildFlavor::Interactive, LOCAL);
    assert_eq!(r, Err(UpdateError::ProtocolViolation));
}

#[test]
fn malformed_json_is_a_decode_failure() {
    let raw = b"HTTP/1.1 200 OK\r\n\r\n{\"tag_name\":".to_vec();
    let r = resolve_update(&raw, BuildFlavor::Interactive, LOCAL);
    assert_eq!(r, Err(UpdateError::Decode));
}

#[test]
fn invalid_utf8_is_a_decode_failure() {
    let mut raw = b"HTTP/1.1 200 OK\r\n\r\n".to_vec();
    raw.push(0xFF);
    raw.push(0xFE);
    let r = resolve_update(&raw, BuildFlavor::Interactive, LOCAL);
    assert_eq!(r, Err(UpdateError::Decode));
}

#[test]
fn unparsable_tag_is_a_decode_failure() {
    let raw = b"HTTP/1.1 200 OK\r\n\r\n{\"tag_name\":\"vnext\",\"assets\":[]}".to_vec();
    let r = resolve_update(&raw, BuildFlavor::Interactive, LOCAL);
    assert_eq!(r, Err(UpdateError::Decode));
}

#[test]
fn nul_padding_after_the_body_is_tolerated() {
    // A fixed 8 KiB read buffer pads the body with NULs.
    let mut raw = response("v1.3.0");
    raw.resize(raw.len() + 64, 0);
    let r = resolve_update(&raw, BuildFlavor::Interactive, LOCAL);
    assert_eq!(r, Ok(Some("https://github.com/a/interactive".to_string())));
}

#[test]
fn trim_strips_whitespace_then_trailing_nuls() {
    assert_eq!(trim_body(b"  {}  \0\0"), b"{}  ".to_vec());
    assert_eq!(trim_body(b"\r\n{}\0\0"), b"{}".to_vec());
    assert_eq!(trim_body(b"\0\0"), b"".to_vec());
    assert_eq!(trim_body(b""), b"".to_vec());
}

#[test]
fn version_prefix_stripping_keeps_everything_from_the_first_digit() {
    assert_eq!(strip_version_prefix("v1.3.0"), "1.3.0");
    assert_eq!(strip_version_prefix("release-2.0.0"), "2.0.0");
    assert_eq!(strip_version_prefix("1.0.0"), "1.0.0");
    assert_eq!(strip_version_prefix("vvv"), "");
    assert_eq!(strip_version_prefix(""), "");
}

#[test]
fn versions_parse_into_their_three_numbers() {
    assert_eq!(
        parse_version("1.2.3"),
        Some(Version { major: 1, minor: 2, patch: 3 })
    );
    assert_eq!(
        parse_version("10.0.7-alpha.1"),
        Some(Version { major: 10, minor: 0, patch: 7 })
    );
    assert_eq!(parse_version("1.2"), None);
    assert_eq!(parse_version("x.y.z"), None);
}

#[test]
fn version_ordering_is_major_then_minor_then_patch() {
    let v = |major, minor, patch| Version { major, minor, patch };
    assert!(version_gt(v(2, 0, 0), v(1, 9, 9)));
    assert!(version_gt(v(1, 3, 0), v(1, 2, 9)));
    assert!(version_gt(v(1, 2, 4), v(1, 2, 3)));
    assert!(!version_gt(v(1, 2, 3), v(1, 2, 3)));
    assert!(!version_gt(v(1, 2, 3), v(1, 3, 0)));
}

#[test]
fn a_bare_numeric_tag_needs_no_prefix() {
    let r = resolve_update(&response("2.0.0"), BuildFlavor::Interactive, LOCAL);
    assert_eq!(r, Ok(Some("https://github.com/a/interactive".to_string())));
}

#[test]
fn an_empty_body_after_the_boundary_is_a_decode_failure() {
    let raw = b"HTTP/1.1 200 OK\r\n\r\n".to_vec();
    let r = resolve_update(&raw, BuildFlavor::Interactive, LOCAL);
    assert_eq!(r, Err(UpdateError::Decode));
}

#[test]
fn expected_asset_names_match_the_flavors() {
    assert_eq!(expected_asset_name(BuildFlavor::Interactive), "sign-firmware.bin");
    assert_eq!(expected_asset_name(BuildFlavor::Passive), "sign-firmware-passive.bin");
}
