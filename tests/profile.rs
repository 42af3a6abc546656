use tunnel::command::{build_command, format_command};
use tunnel::port::{is_valid_port, port_error_message};
use tunnel::profile::Profile;
use tunnel::store::{first_line, loaded, saved_text};

fn profile(address: &str, port: &str) -> Profile {
    let mut p = Profile::new();
    p.address = address.to_string();
    p.port = port.to_string();
    p
}

#[test]
fn empty_port_is_valid() {
    assert!(is_valid_port(""));
}

#[test]
fn digit_ports_are_valid() {
    assert!(is_valid_port("8080"));
    assert!(is_valid_port("0"));
    assert!(is_valid_port("0022"));
    assert!(is_valid_port("99999999999999999999"));
}

#[test]
fn non_digit_ports_are_invalid() {
    assert!(!is_valid_port("abc"));
    assert!(!is_valid_port("12a"));
    assert!(!is_valid_port("-1"));
    assert!(!is_valid_port("+1"));
    assert!(!is_valid_port(" 22"));
    assert!(!is_valid_port("22 "));
    assert!(!is_valid_port("22\n"));
    assert!(!is_valid_port("1.5"));
}

#[test]
fn non_ascii_digits_are_invalid() {
    assert!(!is_valid_port("\u{ff11}\u{ff12}"));
    assert!(!is_valid_port("\u{0661}\u{0662}"));
}

#[test]
fn validation_sets_and_clears_the_message() {
    let mut p = profile("host", "x1");
    assert!(!p.validate_port());
    assert_eq!(p.port_error, "port must contain digits only");
    p.port = "22".to_string();
    assert!(p.validate_port());
    assert_eq!(p.port_error, "");
    p.port = String::new();
    assert!(p.validate_port());
    assert_eq!(p.port_error, "");
}

#[test]
fn error_message_text() {
    assert_eq!(port_error_message(), "port must contain digits only");
}

#[test]
fn build_end_to_end() {
    let mut p = profile("tunnel.example.com", "2222");
    let r = p.build_command().expect("build succeeds");
    assert_eq!(
        r.command_text,
        "cloudflared access tcp --hostname tunnel.example.com --url localhost:2222"
    );
    assert_eq!(r.local_endpoint, "localhost:2222");
    assert_eq!(p.port_error, "");

    let address_text = p.save_address().expect("address is written");
    let port_text = p.save_port().expect("port is written");
    let mut q = Profile::new();
    q.load_address(Some(address_text.as_str()));
    q.load_port(Some(port_text.as_str()));
    assert_eq!(q.address, "tunnel.example.com");
    assert_eq!(q.port, "2222");
}

#[test]
fn build_with_empty_address_yields_nothing() {
    let mut p = profile("", "8080");
    assert!(p.build_command().is_none());
    assert_eq!(p.port_error, "");
    assert!(build_command("", "8080").is_none());
}

#[test]
fn build_with_bad_port_sets_the_message() {
    let mut p = profile("host.example.com", "abc");
    assert!(p.build_command().is_none());
    assert_eq!(p.port_error, "port must contain digits only");
    assert_eq!(p.address, "host.example.com");
    assert_eq!(p.port, "abc");
}

#[test]
fn build_with_empty_port_passes_through() {
    let r = build_command("h.example", "").expect("empty port is accepted");
    assert_eq!(r.command_text, "cloudflared access tcp --hostname h.example --url localhost:");
    assert_eq!(r.local_endpoint, "localhost:");
}

#[test]
fn format_is_literal() {
    let r = format_command("a b", "x");
    assert_eq!(r.command_text, "cloudflared access tcp --hostname a b --url localhost:x");
    assert_eq!(r.local_endpoint, "localhost:x");
}

#[test]
fn saved_text_appends_a_terminator() {
    assert_eq!(saved_text("2222"), Some("2222\n".to_string()));
    assert_eq!(saved_text("host.example.com"), Some("host.example.com\n".to_string()));
}

#[test]
fn empty_value_writes_nothing() {
    assert_eq!(saved_text(""), None);
    let p = Profile::new();
    assert_eq!(p.save_address(), None);
    assert_eq!(p.save_port(), None);
}

#[test]
fn first_line_of_texts() {
    assert_eq!(first_line(""), None);
    assert_eq!(first_line("abc"), Some("abc".to_string()));
    assert_eq!(first_line("abc\n"), Some("abc".to_string()));
    assert_eq!(first_line("abc\r\n"), Some("abc".to_string()));
    assert_eq!(first_line("abc\r"), Some("abc\r".to_string()));
    assert_eq!(first_line("a\r\r\nb"), Some("a\r".to_string()));
    assert_eq!(first_line("a\rb\nc"), Some("a\rb".to_string()));
    assert_eq!(first_line("\n"), Some(String::new()));
    assert_eq!(first_line("\r\n"), Some(String::new()));
    assert_eq!(first_line("first\nsecond\n"), Some("first".to_string()));
    assert_eq!(first_line("\u{65e5}\u{672c}\n"), Some("\u{65e5}\u{672c}".to_string()));
}

#[test]
fn save_then_load_round_trip() {
    let text = saved_text("2222").unwrap();
    assert_eq!(loaded("", Some(text.as_str())), "2222");
    assert_eq!(loaded("9999", Some(text.as_str())), "2222");
}

#[test]
fn empty_save_keeps_prior_value() {
    let prior = saved_text("2222").unwrap();
    let file = match saved_text("") {
        Some(t) => t,
        None => prior,
    };
    assert_eq!(loaded("", Some(file.as_str())), "2222");
}

#[test]
fn load_keeps_default_when_missing_or_empty() {
    assert_eq!(loaded("keep", None), "keep");
    assert_eq!(loaded("keep", Some("")), "keep");
    let mut p = profile("addr", "22");
    p.load_address(None);
    p.load_port(Some(""));
    assert_eq!(p.address, "addr");
    assert_eq!(p.port, "22");
}

#[test]
fn load_reads_the_first_line() {
    let mut p = Profile::new();
    p.load_port(Some("8080\r\nstale\n"));
    p.load_address(Some("a.example\n"));
    assert_eq!(p.port, "8080");
    assert_eq!(p.address, "a.example");
}
