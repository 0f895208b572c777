use roto::cache::CacheEntry;
use roto::cliphist::{self, parse_entry, parse_listing, parse_listing_text, ClipHist, ClipHistEntry};
use roto::error::Error;
use roto::rofi::RofiEntry;
use roto::text::{i32_to_string, parse_usize_chars, usize_to_string};

fn text(id: &str, title: &str) -> ClipHistEntry {
    ClipHistEntry::Text { id: id.to_string(), title: title.to_string() }
}

fn image(id: &str, content_type: &str) -> ClipHistEntry {
    ClipHistEntry::Image { id: id.to_string(), content_type: content_type.to_string() }
}

fn assert_text(e: &ClipHistEntry, want_id: &str, want_title: &str) {
    match e {
        ClipHistEntry::Text { id, title } => {
            assert_eq!(id, want_id);
            assert_eq!(title, want_title);
        }
        other => panic!("expected a text entry, got {:?}", other),
    }
}

fn assert_image(e: &ClipHistEntry, want_id: &str, want_type: &str) {
    match e {
        ClipHistEntry::Image { id, content_type } => {
            assert_eq!(id, want_id);
            assert_eq!(content_type, want_type);
        }
        other => panic!("expected an image entry, got {:?}", other),
    }
}

#[test]
fn text_line_gives_text_entry() {
    let e = parse_entry("1\thello").unwrap();
    assert_text(&e, "1", "hello");
}

#[test]
fn text_value_keeps_tabs_and_spaces() {
    let e = parse_entry("42\t  a\tb  ").unwrap();
    assert_text(&e, "42", "  a\tb  ");
}

#[test]
fn empty_value_is_text() {
    let e = parse_entry("7\t").unwrap();
    assert_text(&e, "7", "");
}

#[test]
fn bracketed_binary_line_gives_image() {
    let e = parse_entry("2\t[[ binary data 12 KiB png 800x600 ]]").unwrap();
    assert_image(&e, "2", "png");
}

#[test]
fn bare_binary_line_gives_image() {
    let e = parse_entry("3\tbinary data jpeg").unwrap();
    assert_image(&e, "3", "jpeg");
}

#[test]
fn last_extension_is_the_content_type() {
    let e = parse_entry("4\tbinary jpg then bmp").unwrap();
    assert_image(&e, "4", "bmp");
}

#[test]
fn jpg_and_jpeg_are_told_apart() {
    assert_image(&parse_entry("5\t[[ binary x jpg ]]").unwrap(), "5", "jpg");
    assert_image(&parse_entry("6\t[[ binary x jpeg ]]").unwrap(), "6", "jpeg");
}

#[test]
fn unicode_white_space_after_brackets() {
    let e = parse_entry("8\t[[\u{a0}binary png").unwrap();
    assert_image(&e, "8", "png");
}

#[test]
fn binary_not_at_start_is_text() {
    let e = parse_entry("9\tnot binary png").unwrap();
    assert_text(&e, "9", "not binary png");
}

#[test]
fn binary_without_extension_is_text() {
    let e = parse_entry("10\t[[ binary data gif ]]").unwrap();
    assert_text(&e, "10", "[[ binary data gif ]]");
}

#[test]
fn brackets_without_space_is_text() {
    let e = parse_entry("11\t[[binary png").unwrap();
    assert_text(&e, "11", "[[binary png");
}

#[test]
fn line_without_digits_fails() {
    match parse_entry("\thello") {
        Err(Error::InvalidEntry { line }) => assert_eq!(line, "\thello"),
        other => panic!("unexpected {:?}", other),
    }
}

#[test]
fn line_without_tab_fails() {
    assert!(matches!(parse_entry("12hello"), Err(Error::InvalidEntry { .. })));
    assert!(matches!(parse_entry("12"), Err(Error::InvalidEntry { .. })));
}

#[test]
fn line_with_letters_in_index_fails() {
    assert!(matches!(parse_entry("1a\tx"), Err(Error::InvalidEntry { .. })));
}

#[test]
fn line_with_newline_in_value_fails() {
    assert!(matches!(parse_entry("1\ta\nb"), Err(Error::InvalidEntry { .. })));
}

#[test]
fn listing_of_text_and_image() {
    let out = b"1\thello\n2\t[[ binary\tdata ]] png\n";
    let entries = parse_listing(out).unwrap();
    assert_eq!(entries.len(), 2);
    assert_text(&entries[0], "1", "hello");
    assert_image(&entries[1], "2", "png");
}

#[test]
fn listing_skips_empty_lines() {
    let entries = parse_listing_text("\n\n3\ta\n\n4\tb").unwrap();
    assert_eq!(entries.len(), 2);
    assert_text(&entries[0], "3", "a");
    assert_text(&entries[1], "4", "b");
}

#[test]
fn empty_listing_has_no_entries() {
    assert_eq!(parse_listing(b"").unwrap().len(), 0);
    assert_eq!(parse_listing(b"\n").unwrap().len(), 0);
}

#[test]
fn listing_fails_on_first_bad_line() {
    match parse_listing(b"1\tok\nbad one\nworse\n") {
        Err(Error::InvalidEntry { line }) => assert_eq!(line, "bad one"),
        other => panic!("unexpected {:?}", other),
    }
}

#[test]
fn listing_replaces_invalid_utf8() {
    let out = [b'1', b'\t', 0xff, b'x', b'\n'];
    let entries = parse_listing(&out).unwrap();
    assert_text(&entries[0], "1", "\u{fffd}x");
}

#[test]
fn image_cache_key_is_id_dot_type() {
    assert_eq!(CacheEntry::id(&image("2", "png")), "2.png");
}

#[test]
fn text_cache_key_is_id() {
    assert_eq!(CacheEntry::id(&text("1", "hello")), "1");
}

#[test]
fn chooser_view_of_entries() {
    let t = text("1", "hello");
    assert_eq!(RofiEntry::id(&t), "1");
    assert_eq!(t.label(), "hello");
    assert_eq!(t.icon(), None);
    let i = image("2", "jpeg");
    assert_eq!(RofiEntry::id(&i), "2");
    assert_eq!(i.label(), "2.jpeg");
    assert_eq!(i.icon(), Some("2.jpeg".to_string()));
}

#[test]
fn store_requests() {
    assert_eq!(ClipHist::delete_request("17"), "17\t");
    assert_eq!(ClipHist::decode_request("17"), "17\t\n");
    assert_eq!(cliphist::new("cliphist").bin(), "cliphist");
}

#[test]
fn decimal_rendering() {
    assert_eq!(usize_to_string(0), "0");
    assert_eq!(usize_to_string(1203), "1203");
    assert_eq!(usize_to_string(usize::MAX), usize::MAX.to_string());
    assert_eq!(i32_to_string(-45), "-45");
    assert_eq!(i32_to_string(i32::MIN), "-2147483648");
    assert_eq!(i32_to_string(7), "7");
}

#[test]
fn decimal_parsing() {
    let chars = |s: &str| s.chars().collect::<Vec<char>>();
    assert_eq!(parse_usize_chars(&chars("3")), Some(3));
    assert_eq!(parse_usize_chars(&chars("+12")), Some(12));
    assert_eq!(parse_usize_chars(&chars("007")), Some(7));
    assert_eq!(parse_usize_chars(&chars("")), None);
    assert_eq!(parse_usize_chars(&chars("+")), None);
    assert_eq!(parse_usize_chars(&chars("-1")), None);
    assert_eq!(parse_usize_chars(&chars("1 ")), None);
    let too_big = format!("{}0", usize::MAX);
    assert_eq!(parse_usize_chars(&chars(&too_big)), None);
    assert_eq!(parse_usize_chars(&chars(&usize::MAX.to_string())), Some(usize::MAX));
}
