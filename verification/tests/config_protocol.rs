use datapool::admin::{Admin, AdminConfig};
use datapool::protocol::{ParseError, ParseOk, CRLF};

struct Settings {
    admin: Admin,
}

impl AdminConfig for Settings {
    fn admin(&self) -> &Admin {
        &self.admin
    }
}

#[test]
fn admin_defaults() {
    let admin = Admin::default();
    assert_eq!(admin.host(), "127.0.0.1");
    assert_eq!(admin.port(), "9999");
    assert_eq!(admin.timeout(), 100);
    assert_eq!(admin.nevent(), 1024);
    assert_eq!(admin.tw_tick(), 10);
    assert_eq!(admin.tw_cap(), 1000);
    assert_eq!(admin.tw_ntick(), 100);
    assert!(!admin.use_tls());
}

#[test]
fn admin_getters_return_what_was_set() {
    let admin = Admin::new(
        String::from("0.0.0.0"),
        String::from("4242"),
        5,
        16,
        1,
        2,
        3,
        true,
    );
    assert_eq!(admin.host(), "0.0.0.0");
    assert_eq!(admin.port(), "4242");
    assert_eq!(admin.timeout(), 5);
    assert_eq!(admin.nevent(), 16);
    assert_eq!(admin.tw_tick(), 1);
    assert_eq!(admin.tw_cap(), 2);
    assert_eq!(admin.tw_ntick(), 3);
    assert!(admin.use_tls());
}

#[test]
fn admin_config_trait_hands_out_the_settings() {
    let settings = Settings { admin: Admin::default() };
    assert_eq!(settings.admin().port(), "9999");
}

#[test]
fn parse_ok_carries_message_and_consumed() {
    let ok = ParseOk::new(String::from("PING"), 6);
    assert_eq!(ok.consumed(), 6);
    assert_eq!(ok.into_inner(), "PING");
}

#[test]
fn parse_errors_are_distinguishable() {
    assert_eq!(ParseError::Invalid, ParseError::Invalid);
    assert_ne!(ParseError::Invalid, ParseError::Incomplete);
    assert_ne!(ParseError::Incomplete, ParseError::UnknownCommand);
}

#[test]
fn crlf_terminates_lines() {
    assert_eq!(CRLF, "\r\n");
    assert_eq!(format!("PONG{}", CRLF), "PONG\r\n");
}
