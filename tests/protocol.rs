use roto::cache::{stale_files, SimpleCache};
use roto::cliphist::ClipHistEntry;
use roto::error::Error;
use roto::rofi::{
    command_args, decode_result, input_text, markup_escape, ExitInfo, KbCustom, RofiOptions,
    RofiResult,
};

fn strings(v: &[&str]) -> Vec<String> {
    v.iter().map(|s| s.to_string()).collect()
}

#[test]
fn decode_success_without_output_is_empty() {
    assert_eq!(decode_result(3, ExitInfo::Code(0), "").unwrap(), RofiResult::Empty);
    assert_eq!(decode_result(3, ExitInfo::Code(0), "\n").unwrap(), RofiResult::Empty);
}

#[test]
fn decode_success_with_index_is_selection() {
    assert_eq!(decode_result(5, ExitInfo::Code(0), "3").unwrap(), RofiResult::Selection { id: 3 });
    assert_eq!(
        decode_result(5, ExitInfo::Code(0), "3\n").unwrap(),
        RofiResult::Selection { id: 3 }
    );
}

#[test]
fn decode_custom_code_with_index_is_keyboard() {
    assert_eq!(
        decode_result(5, ExitInfo::Code(12), "0\n").unwrap(),
        RofiResult::Keyboard { key: 12, id: 0 }
    );
}

#[test]
fn decode_failure_without_output_is_cancel() {
    assert_eq!(decode_result(5, ExitInfo::Code(1), "").unwrap(), RofiResult::Cancel);
}

#[test]
fn decode_signal() {
    assert_eq!(decode_result(5, ExitInfo::Signal(15), "").unwrap(), RofiResult::Signal { key: 15 });
    assert_eq!(decode_result(5, ExitInfo::Stopped(19), "2").unwrap(), RofiResult::Signal { key: 19 });
}

#[test]
fn decode_bad_index_is_an_error() {
    match decode_result(5, ExitInfo::Code(0), "abc\n") {
        Err(Error::InvalidIndex { output }) => assert_eq!(output, "abc"),
        other => panic!("unexpected {:?}", other),
    }
    assert!(matches!(
        decode_result(5, ExitInfo::Code(10), "1\n\n"),
        Err(Error::InvalidIndex { .. })
    ));
}

#[test]
fn decode_of_an_empty_list_is_a_dismissal() {
    assert_eq!(decode_result(0, ExitInfo::Code(0), "4").unwrap(), RofiResult::Empty);
    assert_eq!(decode_result(0, ExitInfo::Code(1), "4").unwrap(), RofiResult::Cancel);
}

#[test]
fn default_options_args() {
    let o = RofiOptions::default();
    assert_eq!(
        o.args(),
        strings(&["-selected-row", "0", "-dmenu", "-i", "-no-custom", "-format", "i"])
    );
}

#[test]
fn full_options_args() {
    let kbs = vec![KbCustom::new(1, "Alt+i", "Switch to images"), KbCustom::new(3, "Alt+d", "Delete <entry>")];
    let mut o = RofiOptions::new("Texts", "", kbs, strings(&["a { b: c; }"]));
    o.selected_row = 12;
    o.case_insensitive = false;
    assert_eq!(
        o.args(),
        strings(&[
            "-selected-row",
            "12",
            "-dmenu",
            "-no-custom",
            "-format",
            "i",
            "-kb-custom-1",
            "Alt+i",
            "-kb-custom-3",
            "Alt+d",
            "-mesg",
            "<span size='small' alpha='70%'><b>Alt+i</b>: Switch to images | <b>Alt+d</b>: Delete &lt;entry&gt;</span>",
            "-p",
            "Texts",
            "-theme-str",
            "a { b: c; }",
        ])
    );
}

#[test]
fn escape_reserved_characters() {
    assert_eq!(markup_escape("a&b<c>'d\"e"), "a&amp;b&lt;c&gt;&apos;d&quot;e");
    assert_eq!(markup_escape("plain"), "plain");
}

#[test]
fn args_for_no_entries() {
    let o = RofiOptions::new("Images", "", vec![], vec![]);
    assert_eq!(
        command_args(0, &o),
        strings(&["-e", "<b>Images</b>: No clipboard entries to show", "-markup"])
    );
    assert_eq!(
        command_args(0, &RofiOptions::default()),
        strings(&["-e", "No clipboard entries to show", "-markup"])
    );
    assert_eq!(command_args(1, &o)[0], "-selected-row");
}

#[test]
fn input_lines_with_and_without_cached_icons() {
    let cache = SimpleCache::new("/home/u/.cache", "rofi-cliphist/thumbs-new");
    let entries = vec![
        ClipHistEntry::Text { id: "1".to_string(), title: "hello".to_string() },
        ClipHistEntry::Image { id: "2".to_string(), content_type: "png".to_string() },
        ClipHistEntry::Image { id: "3".to_string(), content_type: "jpg".to_string() },
    ];
    let present = strings(&["2.png", "9.bmp"]);
    assert_eq!(
        input_text(&entries, &cache, &present),
        "hello\n2.png\0icon\x1f/home/u/.cache/rofi-cliphist/thumbs-new/2.png\n3.jpg\0icon\x1f3.jpg\n"
    );
}

#[test]
fn cache_paths() {
    let cache = SimpleCache::new("/c", "a/b");
    assert_eq!(cache.cache_dir(), "/c/a/b");
    assert_eq!(cache.path("2.png"), "/c/a/b/2.png");
}

#[test]
fn prune_selects_files_not_kept() {
    let files = strings(&["1.png", "2.png", "3.jpg"]);
    let keep = strings(&["2.png", "4.bmp"]);
    assert_eq!(stale_files(&files, &keep), strings(&["1.png", "3.jpg"]));
}

#[test]
fn prune_twice_deletes_nothing_the_second_time() {
    let files = strings(&["1.png", "2.png", "3.jpg", "x"]);
    let keep = strings(&["2.png", "x"]);
    let first = stale_files(&files, &keep);
    assert_eq!(first.len(), 2);
    let remaining: Vec<String> = files.into_iter().filter(|f| !first.contains(f)).collect();
    assert_eq!(stale_files(&remaining, &keep).len(), 0);
}
