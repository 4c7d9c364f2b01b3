use tokio_file_watch::text::{is_blank, is_white_space};

#[test]
fn white_space_is_that_of_unicode() {
    for code in 0..=0x10ffffu32 {
        if let Some(c) = char::from_u32(code) {
            assert_eq!(is_white_space(c), c.is_whitespace(), "{code:#x}");
        }
    }
}

#[test]
fn blank_is_empty_when_trimmed() {
    for line in ["", " ", "\r", " \t\u{3000}\u{85}", "x", " x ", "{}", "\u{200b}", "\u{feff}"] {
        assert_eq!(is_blank(line), line.trim().is_empty(), "{line:?}");
    }
}
