use sign_firmware::net::{connect_target, find_location, redirect_target, NetworkSetupInfo};
use sign_firmware::UpdateError;

#[test]
fn location_header_value_is_handed_back() {
    let raw = b"HTTP/1.1 302 Found\r\nLocation: https://example.com/x\r\n\r\n";
    assert_eq!(
        find_location(raw),
        Some(b"https://example.com/x".to_vec())
    );
}

#[test]
fn location_matching_is_case_insensitive() {
    let raw = b"HTTP/1.1 302 Found\r\nLOCATION: https://a/\r\n\r\n";
    assert_eq!(find_location(raw), Some(b"https://a/".to_vec()));
    let raw2 = b"location: https://b/\r\n";
    assert_eq!(find_location(raw2), Some(b"https://b/".to_vec()));
}

#[test]
fn location_must_start_a_header_line() {
    let raw = b"HTTP/1.1 302 Found\r\nX-Location: https://a/\r\n\r\n";
    assert_eq!(find_location(raw), None);
}

#[test]
fn first_location_header_wins() {
    let raw = b"Location: https://first/\r\nLocation: https://second/\r\n";
    assert_eq!(find_location(raw), Some(b"https://first/".to_vec()));
}

#[test]
fn missing_location_is_a_protocol_violation() {
    let raw = b"HTTP/1.1 200 OK\r\nContent-Type: text/plain\r\n\r\n";
    assert_eq!(redirect_target(raw), Err(UpdateError::ProtocolViolation));
}

#[test]
fn redirect_target_is_the_location_text() {
    let raw = b"HTTP/1.1 302 Found\r\nLocation: https://cdn.example.com/fw.bin\r\n\r\n";
    assert_eq!(
        redirect_target(raw),
        Ok("https://cdn.example.com/fw.bin".to_string())
    );
}

#[test]
fn connect_target_is_the_host_on_the_https_port() {
    assert_eq!(
        connect_target("https://github.com/a/b"),
        Some(("github.com".to_string(), 443))
    );
    assert_eq!(
        connect_target("https://api.github.com/repos/x/releases/latest"),
        Some(("api.github.com".to_string(), 443))
    );
}

#[test]
fn a_hostless_or_broken_url_has_no_connect_target() {
    assert_eq!(connect_target("not a url"), None);
    assert_eq!(connect_target("data:text/plain,hello"), None);
}

#[test]
fn connection_notice_names_the_ssid() {
    let personal = NetworkSetupInfo::Personal {
        ssid: "hotspot".to_string(),
        password: "pw".to_string(),
    };
    assert_eq!(
        personal.print_debug(),
        "Attempting to connect to 'hotspot'"
    );
    let enterprise = NetworkSetupInfo::Enterprise {
        ssid: "campus".to_string(),
        email: "sign@example.com".to_string(),
        username: "sign".to_string(),
        password: "pw".to_string(),
    };
    assert_eq!(
        enterprise.print_debug(),
        "Attempting to connect to 'campus'"
    );
}
