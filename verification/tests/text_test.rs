use yt_dl_service::text::{build_file_name, sanitize_filename, u64_to_decimal};

#[test]
fn test_u64_to_decimal() {
    assert_eq!(u64_to_decimal(0), "0");
    assert_eq!(u64_to_decimal(7), "7");
    assert_eq!(u64_to_decimal(10), "10");
    assert_eq!(u64_to_decimal(409), "409");
    assert_eq!(u64_to_decimal(18446744073709551615), "18446744073709551615");
}

#[test]
fn test_sanitize_filename() {
    assert_eq!(sanitize_filename("a/b\\c.mp3"), "a_b_c.mp3");
    assert_eq!(sanitize_filename("plain.mp3"), "plain.mp3");
    assert_eq!(sanitize_filename(""), "");
}

#[test]
fn test_build_file_name() {
    assert_eq!(build_file_name("", "Some Title"), "Some Title.mp3");
    assert_eq!(
        build_file_name("AC/DC", "Back In Black"),
        "AC_DC - Back In Black.mp3"
    );
    assert_eq!(build_file_name("", "a/b\\c"), "a_b_c.mp3");
}
