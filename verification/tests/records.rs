use base64::engine::general_purpose::URL_SAFE_NO_PAD;
use base64::Engine;
use error_code::fingerprint::{be_bytes, digest, digest_text};
use error_code::{fingerprint, AppCode, AppCodeError, ErrorInfo};
use std::collections::hash_map::DefaultHasher;
use std::hash::{Hash, Hasher};

fn expected_hash(message: &str) -> String {
    let mut hasher = DefaultHasher::new();
    message.to_string().hash(&mut hasher);
    URL_SAFE_NO_PAD.encode(hasher.finish().to_be_bytes())
}

#[test]
fn invalid_command_record() {
    let info: ErrorInfo<u16> =
        ErrorInfo::new("400", "01IC", "", "invalid command: cmd".to_string());
    assert_eq!(info.code, "01IC");
    assert_eq!(info.app_code, 400);
    assert_eq!(info.client_msg, "");
    assert_eq!(info.server_msg, "invalid command: cmd");
    assert_eq!(info.client_msg(), "invalid command: cmd");
    assert_eq!(info.hash, expected_hash("invalid command: cmd"));
    assert_eq!(
        info.to_string(),
        format!("01IC: invalid command: cmd-{}", info.hash)
    );
}

#[test]
fn invalid_argument_record_has_other_hash() {
    let command: ErrorInfo<u16> =
        ErrorInfo::new("400", "01IC", "", "invalid command: cmd".to_string());
    let argument: ErrorInfo<u16> =
        ErrorInfo::new("400", "01IA", "", "invalid argument: cmd".to_string());
    assert_eq!(argument.code, "01IA");
    assert_eq!(argument.app_code, 400);
    assert_ne!(argument.hash, command.hash);
}

#[test]
fn wrapped_io_failure_record() {
    let failure = std::io::Error::new(std::io::ErrorKind::Other, "connection reset");
    let rendered = failure.to_string();
    let info: ErrorInfo<u16> = ErrorInfo::new("500", "01RE", "", rendered.clone());
    assert_eq!(info.code, "01RE");
    assert_eq!(info.app_code, 500);
    assert_eq!(info.server_msg, rendered);
    assert_eq!(info.client_msg(), "connection reset");
}

#[test]
fn equal_messages_give_equal_hashes_in_separate_records() {
    let first: ErrorInfo<u16> = ErrorInfo::new("400", "01IC", "", "same text".to_string());
    let second: ErrorInfo<u16> = ErrorInfo::new("500", "01RE", "hidden", "same text".to_string());
    assert_eq!(first.hash, second.hash);
    assert_ne!(first.code, second.code);
    assert_ne!(first.app_code, second.app_code);
    assert_ne!(first.client_msg, second.client_msg);
}

#[test]
fn client_msg_is_the_declared_one_when_not_empty() {
    let info: ErrorInfo<u16> =
        ErrorInfo::new("500", "01DB", "try again later", "db down at 10.0.0.7".to_string());
    assert_eq!(info.client_msg(), "try again later");
    assert_eq!(info.client_msg, "try again later");
}

#[test]
fn client_msg_falls_back_to_the_server_message() {
    let info: ErrorInfo<u16> = ErrorInfo::new("500", "01DB", "", "db down".to_string());
    assert_eq!(info.client_msg(), "db down");
}

#[test]
fn client_line_keeps_the_server_message_out() {
    let info: ErrorInfo<u16> =
        ErrorInfo::new("500", "01DB", "try again later", "db down at 10.0.0.7".to_string());
    let line = info.to_string();
    assert_eq!(line, format!("01DB: try again later-{}", info.hash));
    assert!(!line.contains("db down at 10.0.0.7"));
}

#[test]
fn log_line_carries_the_server_message() {
    let info: ErrorInfo<u16> =
        ErrorInfo::new("500", "01DB", "try again later", "db down at 10.0.0.7".to_string());
    assert_eq!(
        info.to_log_string(),
        format!("01DB: db down at 10.0.0.7-{}", info.hash)
    );
}

#[test]
fn both_lines_share_code_and_hash() {
    let info: ErrorInfo<u16> =
        ErrorInfo::new("500", "01DB", "try again later", "db down".to_string());
    let client = info.to_string();
    let log = info.to_log_string();
    let head = format!("{}: ", info.code);
    let tail = format!("-{}", info.hash);
    assert!(client.starts_with(&head));
    assert!(log.starts_with(&head));
    assert!(client.ends_with(&tail));
    assert!(log.ends_with(&tail));
    assert_ne!(client, log);
}

#[test]
fn fingerprint_is_the_encoded_default_hash() {
    for message in ["", "a", "invalid command: cmd", "ünïcödé ✓", "line\nbreak"] {
        assert_eq!(fingerprint(message), expected_hash(message));
    }
}

#[test]
fn fingerprint_repeats() {
    assert_eq!(fingerprint("disk full"), fingerprint("disk full"));
    let again = String::from("disk full");
    assert_eq!(fingerprint(&again), fingerprint("disk full"));
}

#[test]
fn fingerprint_tells_messages_apart() {
    let prints: Vec<String> = ["", "a", "b", "ab", "ba", "disk full", "disk full "]
        .iter()
        .map(|m| fingerprint(m))
        .collect();
    for i in 0..prints.len() {
        for j in 0..i {
            assert_ne!(prints[i], prints[j]);
        }
    }
}

#[test]
fn fingerprint_is_eleven_url_safe_characters() {
    let print = fingerprint("invalid command: cmd");
    assert_eq!(print.len(), 11);
    assert!(print
        .chars()
        .all(|c| c.is_ascii_alphanumeric() || c == '-' || c == '_'));
}

#[test]
fn digest_is_the_default_hash_of_the_string() {
    let mut hasher = DefaultHasher::new();
    "disk full".hash(&mut hasher);
    assert_eq!(digest("disk full"), hasher.finish());
    assert_ne!(digest("disk full"), digest("disk fuller"));
}

#[test]
fn digest_text_of_known_values() {
    assert_eq!(digest_text(0), "AAAAAAAAAAA");
    assert_eq!(digest_text(u64::MAX), "__________8");
    assert_eq!(digest_text(0x0102_0304_0506_0708), "AQIDBAUGBwg");
    assert_eq!(digest_text(0xfbff_0000_0000_0000), "-_8AAAAAAAA");
}

#[test]
fn be_bytes_puts_the_high_byte_first() {
    assert_eq!(be_bytes(0x0102_0304_0506_0708), [1, 2, 3, 4, 5, 6, 7, 8]);
    assert_eq!(be_bytes(0), [0; 8]);
    assert_eq!(be_bytes(u64::MAX), [0xff; 8]);
    assert_eq!(be_bytes(0xff), [0, 0, 0, 0, 0, 0, 0, 0xff]);
    assert_eq!(be_bytes(0x8000_0000_0000_0000), [0x80, 0, 0, 0, 0, 0, 0, 0]);
    assert_eq!(be_bytes(0x1234_5678_9abc_def0), 0x1234_5678_9abc_def0u64.to_be_bytes());
}

#[test]
fn try_new_builds_the_record() {
    let built: Result<ErrorInfo<u16>, AppCodeError> =
        ErrorInfo::try_new("404", "02NF", "not found", "no row 17".to_string());
    let info = match built {
        Ok(info) => info,
        Err(e) => panic!("unexpected {:?}", e),
    };
    assert_eq!(info.app_code, 404);
    assert_eq!(info.code, "02NF");
    assert_eq!(info.client_msg, "not found");
    assert_eq!(info.server_msg, "no row 17");
    assert_eq!(info.hash, expected_hash("no row 17"));
}

#[test]
fn try_new_reports_an_unreadable_app_code() {
    let built: Result<ErrorInfo<u16>, AppCodeError> =
        ErrorInfo::try_new("4o4", "02NF", "", "no row 17".to_string());
    match built {
        Ok(_) => panic!("a record was built"),
        Err(e) => assert_eq!(e, AppCodeError { app_code: "4o4".to_string() }),
    }
}

#[test]
fn from_app_code_takes_any_code_type() {
    let info = ErrorInfo::from_app_code(("teapot", 418), "03TP", "", "short and stout".to_string());
    assert_eq!(info.app_code, ("teapot", 418));
    assert_eq!(info.code, "03TP");
    assert_eq!(info.client_msg(), "short and stout");
    assert_eq!(info.hash, expected_hash("short and stout"));
}

#[test]
fn u16_codes_read_as_std_reads_them() {
    let texts = [
        "0", "7", "400", "500", "65535", "65536", "65540", "99999", "100000", "0400", "00000000065535",
        "+400", "+0", "+", "", "-", "-1", "++1", "+-1", "4 00", " 400", "400 ", "4_0", "0x10",
        "４００", "1e3", "६५", "18446744073709551616",
    ];
    for text in texts {
        assert_eq!(<u16 as AppCode>::parse(text), text.parse::<u16>().ok(), "{:?}", text);
    }
    assert_eq!(<u16 as AppCode>::parse("400"), Some(400));
    assert_eq!(<u16 as AppCode>::parse("65535"), Some(65535));
    assert_eq!(<u16 as AppCode>::parse("65536"), None);
    assert_eq!(<u16 as AppCode>::parse(""), None);
}
