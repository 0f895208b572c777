use roto::cache::{stale_files, SimpleCache};
use roto::cliphist::{self, parse_listing, ClipHistEntry};
use roto::clipboard;
use roto::config::{
    default_delete_mode_config, default_delete_next_config, default_delete_previous_config,
    default_image_mode_config, default_text_mode_config, Config,
};
use roto::error::Error;
use roto::rofi::cliphist_mode::{sync_plan, Action, ClipHistMode, ClipHistModeConfig, Mode, Step};
use roto::rofi::{self, RofiEntry, RofiResult};

fn config() -> ClipHistModeConfig {
    ClipHistModeConfig {
        text_mode: default_text_mode_config(),
        image_mode: default_image_mode_config(),
        delete_mode: default_delete_mode_config(),
        delete_previous_mode: default_delete_previous_config(),
        delete_next_mode: default_delete_next_config(),
    }
}

fn session(listing: Vec<ClipHistEntry>) -> ClipHistMode {
    ClipHistMode::new(
        rofi::new("rofi"),
        SimpleCache::new("/tmp", "thumbs"),
        cliphist::new("cliphist"),
        clipboard::new("wl-copy"),
        config(),
        listing,
    )
}

fn texts(ids: &[&str]) -> Vec<ClipHistEntry> {
    ids.iter()
        .map(|i| ClipHistEntry::Text { id: i.to_string(), title: format!("t{i}") })
        .collect()
}

fn ids(mode: &ClipHistMode) -> Vec<String> {
    mode.current_entries().iter().map(|e| RofiEntry::id(e)).collect()
}

#[test]
fn end_to_end_selection_copies_the_text() {
    let listing = parse_listing(b"1\thello\n2\t[[ binary\tdata ]] png\n").unwrap();
    let mut mode = session(listing);
    assert_eq!(mode.mode(), Mode::Text);
    assert_eq!(mode.current_entries().len(), 1);
    match mode.handle(RofiResult::Selection { id: 0 }) {
        Ok(Step::Copy { id }) => assert_eq!(id, "1"),
        other => panic!("unexpected {:?}", other),
    }
    assert_eq!(mode.current_options().selected_row, 0);
}

#[test]
fn modes_split_the_listing_in_order() {
    let listing = parse_listing(b"1\ta\n2\tbinary png\n3\tb\n4\tbinary jpg\n").unwrap();
    let mut mode = session(listing);
    assert_eq!(ids(&mode), vec!["1", "3"]);
    assert_eq!(mode.current_options().prompt.as_deref(), Some("Texts"));
    assert!(matches!(mode.handle(RofiResult::Keyboard { key: 10, id: 1 }), Ok(Step::Show)));
    assert_eq!(mode.mode(), Mode::Image);
    assert_eq!(ids(&mode), vec!["2", "4"]);
    assert_eq!(mode.current_options().prompt.as_deref(), Some("Images"));
    assert_eq!(mode.current_options().theme_str.len(), 3);
    assert!(matches!(mode.handle(RofiResult::Keyboard { key: 11, id: 0 }), Ok(Step::Show)));
    assert_eq!(mode.mode(), Mode::Text);
    assert_eq!(mode.current_options().selected_row, 1);
}

#[test]
fn mode_bindings_in_arguments() {
    let mode = session(texts(&["1"]));
    let args = mode.current_options().args();
    let pos = args.iter().position(|a| a == "-kb-custom-1").unwrap();
    assert_eq!(args[pos + 1], "Alt+i");
    assert!(args.contains(&"-kb-custom-3".to_string()));
    assert!(args.contains(&"-kb-custom-4".to_string()));
    assert!(args.contains(&"-kb-custom-5".to_string()));
}

#[test]
fn delete_before_keeps_the_pivot() {
    let mut mode = session(texts(&["a", "b", "c", "d"]));
    match mode.handle(RofiResult::Keyboard { key: 13, id: 2 }) {
        Ok(Step::Remove { ids: removed }) => assert_eq!(removed, vec!["a", "b"]),
        other => panic!("unexpected {:?}", other),
    }
    assert_eq!(ids(&mode), vec!["c", "d"]);
    assert_eq!(mode.current_options().selected_row, 2);
}

#[test]
fn delete_after_keeps_the_pivot() {
    let mut mode = session(texts(&["a", "b", "c", "d"]));
    match mode.handle(RofiResult::Keyboard { key: 14, id: 2 }) {
        Ok(Step::Remove { ids: removed }) => assert_eq!(removed, vec!["d"]),
        other => panic!("unexpected {:?}", other),
    }
    assert_eq!(ids(&mode), vec!["a", "b", "c"]);
}

#[test]
fn delete_one_removes_the_highlighted_entry() {
    let mut mode = session(texts(&["a", "b", "c"]));
    match mode.handle(RofiResult::Keyboard { key: 12, id: 1 }) {
        Ok(Step::Remove { ids: removed }) => assert_eq!(removed, vec!["b"]),
        other => panic!("unexpected {:?}", other),
    }
    assert_eq!(ids(&mode), vec!["a", "c"]);
}

#[test]
fn delete_before_the_first_removes_nothing() {
    let mut mode = session(texts(&["a", "b"]));
    match mode.handle(RofiResult::Keyboard { key: 13, id: 0 }) {
        Ok(Step::Remove { ids: removed }) => assert!(removed.is_empty()),
        other => panic!("unexpected {:?}", other),
    }
    assert_eq!(ids(&mode), vec!["a", "b"]);
}

#[test]
fn unknown_binding_is_an_error() {
    let mut mode = session(texts(&["a"]));
    match mode.handle(RofiResult::Keyboard { key: 20, id: 0 }) {
        Err(Error::UnknownAction { code }) => assert_eq!(code, 20),
        other => panic!("unexpected {:?}", other),
    }
}

#[test]
fn index_out_of_range_is_an_error() {
    let mut mode = session(texts(&["a"]));
    match mode.handle(RofiResult::Selection { id: 5 }) {
        Err(Error::NoSuchEntry { index }) => assert_eq!(index, 5),
        other => panic!("unexpected {:?}", other),
    }
    assert!(matches!(
        mode.handle(RofiResult::Keyboard { key: 12, id: 1 }),
        Err(Error::NoSuchEntry { index: 1 })
    ));
}

#[test]
fn dismissals_finish_the_session() {
    let mut mode = session(texts(&["a"]));
    assert!(matches!(mode.handle(RofiResult::Cancel), Ok(Step::Finish)));
    assert!(matches!(mode.handle(RofiResult::Empty), Ok(Step::Finish)));
    assert!(matches!(mode.handle(RofiResult::Signal { key: 15 }), Ok(Step::Finish)));
    assert_eq!(ids(&mode), vec!["a"]);
}

#[test]
fn action_codes() {
    assert_eq!(Action::from_exit_code(10), Some(Action::SwitchToImage));
    assert_eq!(Action::from_exit_code(12), Some(Action::DeleteOne));
    assert_eq!(Action::from_exit_code(14), Some(Action::DeleteAfter));
    assert_eq!(Action::from_exit_code(9), None);
    assert_eq!(Action::DeleteBefore.binding(), 4);
}

#[test]
fn sync_fetches_missing_images_and_keeps_all_images() {
    let listing = parse_listing(b"1\ta\n2\tbinary png\n3\tbinary jpg\n").unwrap();
    let present: Vec<String> = vec!["2.png".to_string(), "old.bmp".to_string()];
    let plan = sync_plan(listing, &present);
    assert_eq!(plan.fetch.len(), 1);
    assert_eq!(RofiEntry::id(&plan.fetch[0]), "3");
    assert_eq!(plan.keep, vec!["2.png", "3.jpg"]);
    let mut after: Vec<String> = present.clone();
    for e in &plan.fetch {
        after.push(roto::cache::CacheEntry::id(e));
    }
    let stale = stale_files(&after, &plan.keep);
    assert_eq!(stale, vec!["old.bmp"]);
    let mut remaining: Vec<String> = after.into_iter().filter(|f| !stale.contains(f)).collect();
    remaining.sort();
    assert_eq!(remaining, vec!["2.png", "3.jpg"]);
}

#[test]
fn default_config() {
    let c = Config::default();
    assert_eq!(c.rofi.path, "rofi");
    assert_eq!(c.cliphist.path, "cliphist");
    assert_eq!(c.clipboard.path, "wl-copy");
    assert!(!c.paste_enabled.flag);
    assert_eq!(c.image_mode_config.shortcut, "Alt+i");
    assert_eq!(c.text_mode_config.description, "Switch to text");
    assert_eq!(c.delete_mode_config.title, "Delete");
    assert_eq!(c.delete_previous_config.shortcut, "Alt+p");
    assert_eq!(c.delete_next_config.description, "Delete all entries after the selected one");
}
