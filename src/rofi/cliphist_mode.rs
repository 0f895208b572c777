//! The browsing session: two lists of entries (texts and images), each shown
//! with options of its own, and the transitions that a chooser result causes.
//! Running the chooser, the store and the clipboard is left to the caller,
//! which hands each result to [`ClipHistMode::handle`] and carries out the
//! step it returns.
use vstd::prelude::*;

use crate::cache::{contains_str, stale, views, CacheEntry, SimpleCache};
use crate::clipboard::Clipboard;
use crate::cliphist::{entry_views, ClipHist, ClipHistEntry, EntryView};
use crate::config::ModeConfig;
use crate::error::Error;
use crate::rofi::{opt_view, KbCustom, Rofi, RofiOptions, RofiResult};

verus! {

/// Which list is shown.
#[derive(Debug, Clone, Copy, PartialEq, Eq, Structural)]
pub enum Mode {
    Text,
    Image,
}

/// What a custom key binding does.
///
/// The binding of an action is the chooser's `-kb-custom-<n>`; when it is
/// used, the chooser exits with code `9 + n`.
#[derive(Debug, Clone, Copy, PartialEq, Eq, Structural)]
pub enum Action {
    SwitchToImage,
    SwitchToText,
    DeleteOne,
    DeleteBefore,
    DeleteAfter,
}

impl Action {
    /// The action's binding number.
    pub open spec fn spec_binding(self) -> i32 {
        match self {
            Action::SwitchToImage => 1,
            Action::SwitchToText => 2,
            Action::DeleteOne => 3,
            Action::DeleteBefore => 4,
            Action::DeleteAfter => 5,
        }
    }

    /// The action's binding number.
    #[verifier::when_used_as_spec(spec_binding)]
    pub fn binding(self) -> (r: i32)
        ensures
            r == self.spec_binding(),
    {
        match self {
            Action::SwitchToImage => 1,
            Action::SwitchToText => 2,
            Action::DeleteOne => 3,
            Action::DeleteBefore => 4,
            Action::DeleteAfter => 5,
        }
    }

    /// The chooser's exit code when the action's binding is used.
    pub open spec fn exit_code(self) -> int {
        self.spec_binding() + 9
    }

    /// The action whose binding makes the chooser exit with `code`.
    pub fn from_exit_code(code: i32) -> (r: Option<Action>)
        ensures
            r == action_of(code as int),
            match r {
                Some(a) => a.exit_code() == code,
                None => forall|a: Action| a.exit_code() != code,
            },
    {
        proof {
            lemma_exit_codes_distinct();
        }
        let r = if code == 10 {
            Some(Action::SwitchToImage)
        } else if code == 11 {
            Some(Action::SwitchToText)
        } else if code == 12 {
            Some(Action::DeleteOne)
        } else if code == 13 {
            Some(Action::DeleteBefore)
        } else if code == 14 {
            Some(Action::DeleteAfter)
        } else {
            proof {
                assert forall|a: Action| a.exit_code() != code by {
                    match a {
                        Action::SwitchToImage => {},
                        Action::SwitchToText => {},
                        Action::DeleteOne => {},
                        Action::DeleteBefore => {},
                        Action::DeleteAfter => {},
                    }
                }
            }
            None
        };
        proof {
            match r {
                Some(a) => {
                    assert(a.exit_code() == code as int);
                },
                None => {},
            }
        }
        r
    }
}

/// The action whose binding makes the chooser exit with `code`, if any.
pub open spec fn action_of(code: int) -> Option<Action> {
    if exists|a: Action| a.exit_code() == code {
        Some(choose|a: Action| a.exit_code() == code)
    } else {
        None
    }
}

proof fn lemma_exit_codes_distinct()
    ensures
        forall|a: Action, b: Action| a.exit_code() == b.exit_code() ==> a == b,
{
    assert forall|a: Action, b: Action| a.exit_code() == b.exit_code() implies a == b by {
        match a {
            Action::SwitchToImage => {},
            Action::SwitchToText => {},
            Action::DeleteOne => {},
            Action::DeleteBefore => {},
            Action::DeleteAfter => {},
        }
    }
}

/// The bindings of the session.
pub struct ClipHistModeConfig {
    pub text_mode: ModeConfig,
    pub image_mode: ModeConfig,
    pub delete_mode: ModeConfig,
    pub delete_previous_mode: ModeConfig,
    pub delete_next_mode: ModeConfig,
}

/// The entries of one mode and the options they are shown with.
struct RofiState {
    entries: Vec<ClipHistEntry>,
    options: RofiOptions,
}

/// A browsing session over the clipboard history.
pub struct ClipHistMode {
    rofi: Rofi,
    cache: SimpleCache,
    cliphist: ClipHist,
    clipboard: Clipboard,
    txt: RofiState,
    img: RofiState,
    mode: Mode,
}

/// What the caller does after a chooser result.
#[derive(Debug)]
pub enum Step {
    /// Fetch the payload of the store entry `id` and hand it to the
    /// clipboard; the session then ends.
    Copy { id: String },
    /// Remove these store entries, in this order, and show the chooser again.
    Remove { ids: Vec<String> },
    /// Show the chooser again.
    Show,
    /// The session ends without an error.
    Finish,
}

/// Whether `kb` is the binding of `a`, with the chord and description of `m`.
pub open spec fn binds(kb: KbCustom, a: Action, m: ModeConfig) -> bool {
    kb.key() == a.spec_binding() && kb.shortcut() == m.shortcut@ && kb.description() == m.description@
}

/// The bindings of a mode: the switch to the other mode, then the three
/// deletions.
pub open spec fn mode_bindings(m: Mode, kbs: Seq<KbCustom>, config: ClipHistModeConfig) -> bool {
    &&& kbs.len() == 4
    &&& match m {
        Mode::Text => binds(kbs[0], Action::SwitchToImage, config.image_mode),
        Mode::Image => binds(kbs[0], Action::SwitchToText, config.text_mode),
    }
    &&& binds(kbs[1], Action::DeleteOne, config.delete_mode)
    &&& binds(kbs[2], Action::DeleteBefore, config.delete_previous_mode)
    &&& binds(kbs[3], Action::DeleteAfter, config.delete_next_mode)
}

/// The prompt of a mode.
pub open spec fn title_of(m: Mode) -> Seq<char> {
    match m {
        Mode::Text => "Texts"@,
        Mode::Image => "Images"@,
    }
}

/// The theme strings of a mode: a plain list for texts, a grid of icons for
/// images.
pub open spec fn theme_of(m: Mode) -> Seq<Seq<char>> {
    match m {
        Mode::Text => seq![
            "element { children: [element-text]; orientation: vertical; }"@,
            "listview { layout: vertical; }"@,
        ],
        Mode::Image => seq![
            "element { children: [element-icon]; orientation: vertical;}"@,
            "element-icon { size: 228px; padding: 0px; }"@,
            "listview { layout: vertical; lines: 3; columns: 3; fixed-height: true; fixed-columns: true; }"@,
        ],
    }
}

/// The options a mode starts with.
pub open spec fn initial_options(m: Mode, o: RofiOptions, config: ClipHistModeConfig) -> bool {
    &&& o.case_insensitive
    &&& o.dmenu
    &&& o.no_custom
    &&& opt_view(o.mesg) == Some(Seq::<char>::empty())
    &&& opt_view(o.prompt) == Some(title_of(m))
    &&& o.selected_row == 0
    &&& views(o.theme_str@) == theme_of(m)
    &&& mode_bindings(m, o.custom_kbs@, config)
}

/// Whether `e` belongs to the text list.
pub open spec fn is_text(e: EntryView) -> bool {
    !e.is_image()
}

/// Whether `e` belongs to the image list.
pub open spec fn is_image(e: EntryView) -> bool {
    e.is_image()
}

/// `options` with the cursor on `row`.
pub open spec fn with_row(options: RofiOptions, row: usize) -> RofiOptions {
    RofiOptions { selected_row: row, ..options }
}

/// The entries before the pivot `p`.
pub open spec fn before_pivot(s: Seq<EntryView>, p: int) -> Seq<EntryView> {
    s.take(p)
}

/// The entries after the pivot `p`.
pub open spec fn after_pivot(s: Seq<EntryView>, p: int) -> Seq<EntryView> {
    s.skip(p + 1)
}

/// The store identities of a sequence of entries.
pub open spec fn store_ids(s: Seq<EntryView>) -> Seq<Seq<char>> {
    s.map_values(|e: EntryView| e.id())
}

/// The other mode.
pub open spec fn other(m: Mode) -> Mode {
    match m {
        Mode::Text => Mode::Image,
        Mode::Image => Mode::Text,
    }
}

/// The store identities of `v`, in order.
fn ids_of(v: &[ClipHistEntry]) -> (r: Vec<String>)
    ensures
        views(r@) == store_ids(entry_views(v@)),
{
    let mut r: Vec<String> = Vec::new();
    let mut i: usize = 0;
    while i < v.len()
        invariant
            i <= v.len(),
            views(r@) == store_ids(entry_views(v@.take(i as int))),
        decreases v.len() - i,
    {
        let ghost before = r@;
        r.push(v[i].store_id());
        proof {
            assert(views(r@) =~= views(before).push(v@[i as int]@.id()));
            assert(store_ids(entry_views(v@.take(i + 1))) =~= store_ids(
                entry_views(v@.take(i as int)),
            ).push(v@[i as int]@.id()));
        }
        i = i + 1;
    }
    assert(v@.take(v.len() as int) =~= v@);
    r
}

impl RofiState {
    /// Chooses the entry `id`.
    fn select(&mut self, id: usize) -> (r: Result<Step, Error>)
        ensures
            final(self).entries@ == old(self).entries@,
            final(self).options == with_row(old(self).options, id),
            if id < old(self).entries@.len() {
                r matches Ok(Step::Copy { id: s }) && s@ == old(self).entries@[id as int]@.id()
            } else {
                r matches Err(Error::NoSuchEntry { index }) && index == id
            },
    {
        self.options.selected_row = id;
        if id < self.entries.len() {
            Ok(Step::Copy { id: self.entries[id].store_id() })
        } else {
            Err(Error::NoSuchEntry { index: id })
        }
    }

    /// Applies one of the deletions with the entry `id` highlighted.
    fn delete(&mut self, action: Action, id: usize) -> (r: Result<Step, Error>)
        requires
            action == Action::DeleteOne || action == Action::DeleteBefore || action
                == Action::DeleteAfter,
        ensures
            final(self).options == with_row(old(self).options, id),
            deleted(entry_views(old(self).entries@), entry_views(final(self).entries@), action, id, r),
    {
        self.options.selected_row = id;
        let ghost es = entry_views(self.entries@);
        let n = self.entries.len();
        match action {
            Action::DeleteOne => {
                if id >= n {
                    return Err(Error::NoSuchEntry { index: id });
                }
                let e = self.entries.remove(id);
                let mut ids: Vec<String> = Vec::new();
                ids.push(e.store_id());
                proof {
                    assert(entry_views(self.entries@) =~= es.remove(id as int));
                    assert(views(ids@) =~= seq![es[id as int].id()]);
                }
                Ok(Step::Remove { ids })
            },
            Action::DeleteBefore => {
                if id > n {
                    return Err(Error::NoSuchEntry { index: id });
                }
                let rest = self.entries.split_off(id);
                assert(entry_views(self.entries@) =~= es.take(id as int));
                let ids = ids_of(self.entries.as_slice());
                self.entries = rest;
                proof {
                    assert(entry_views(self.entries@) =~= es.skip(id as int));
                }
                Ok(Step::Remove { ids })
            },
            Action::DeleteAfter => {
                if id >= n {
                    return Err(Error::NoSuchEntry { index: id });
                }
                let tail = self.entries.split_off(id + 1);
                let ids = ids_of(tail.as_slice());
                proof {
                    assert(entry_views(self.entries@) =~= es.take(id + 1));
                    assert(entry_views(tail@) =~= es.skip(id + 1));
                }
                Ok(Step::Remove { ids })
            },
            _ => {
                Ok(Step::Show)
            },
        }
    }
}

/// The outcome of a deletion with the entry `id` highlighted, from the list
/// `es` to the list `kept`: the removed entries go to the store in list
/// order.
pub open spec fn deleted(
    es: Seq<EntryView>,
    kept: Seq<EntryView>,
    action: Action,
    id: usize,
    r: Result<Step, Error>,
) -> bool {
    match action {
        Action::DeleteOne => if id < es.len() {
            kept == es.remove(id as int) && (r matches Ok(Step::Remove { ids }) && views(ids@)
                == seq![es[id as int].id()])
        } else {
            kept == es && (r matches Err(Error::NoSuchEntry { index }) && index == id)
        },
        Action::DeleteBefore => if id <= es.len() {
            kept == es.skip(id as int) && (r matches Ok(Step::Remove { ids }) && views(ids@)
                == store_ids(before_pivot(es, id as int)))
        } else {
            kept == es && (r matches Err(Error::NoSuchEntry { index }) && index == id)
        },
        Action::DeleteAfter => if id < es.len() {
            kept == es.take(id + 1) && (r matches Ok(Step::Remove { ids }) && views(ids@)
                == store_ids(after_pivot(es, id as int)))
        } else {
            kept == es && (r matches Err(Error::NoSuchEntry { index }) && index == id)
        },
        _ => true,
    }
}

/// The other mode's entries and options are as they were.
pub open spec fn other_unchanged(b: ClipHistMode, a: ClipHistMode, m: Mode) -> bool {
    a.entries_in(other(m)) == b.entries_in(other(m)) && a.options_in(other(m)) == b.options_in(
        other(m),
    )
}

/// How the session `b` becomes `a` and what the caller is told to do, `r`,
/// when the chooser gives `result`.
///
/// The cursor of the shown mode moves to the index of a selection or a key
/// binding. A selection copies the chosen entry and ends the session; the
/// switches change the mode shown; the deletions remove entries from the
/// shown list and from the store; a binding of no action is an error; a
/// dismissal, an empty answer or a signal ends the session.
pub open spec fn transition(
    b: ClipHistMode,
    a: ClipHistMode,
    result: RofiResult,
    r: Result<Step, Error>,
) -> bool {
    let m = b.spec_mode();
    let es = b.entries_in(m);
    match result {
        RofiResult::Selection { id } => {
            &&& a.spec_mode() == m
            &&& a.entries_in(m) == es
            &&& a.options_in(m) == with_row(b.options_in(m), id)
            &&& other_unchanged(b, a, m)
            &&& if id < es.len() {
                r matches Ok(Step::Copy { id: s }) && s@ == es[id as int].id()
            } else {
                r matches Err(Error::NoSuchEntry { index }) && index == id
            }
        },
        RofiResult::Keyboard { key, id } => {
            &&& a.options_in(m) == with_row(b.options_in(m), id)
            &&& other_unchanged(b, a, m)
            &&& match action_of(key as int) {
                None => a.spec_mode() == m && a.entries_in(m) == es && (r matches Err(
                    Error::UnknownAction { code },
                ) && code == key),
                Some(Action::SwitchToImage) => a.spec_mode() == Mode::Image && a.entries_in(m)
                    == es && r matches Ok(Step::Show),
                Some(Action::SwitchToText) => a.spec_mode() == Mode::Text && a.entries_in(m) == es
                    && r matches Ok(Step::Show),
                Some(action) => a.spec_mode() == m && deleted(es, a.entries_in(m), action, id, r),
            }
        },
        _ => a == b && r matches Ok(Step::Finish),
    }
}

proof fn lemma_filter_push(s: Seq<EntryView>, x: EntryView, pred: spec_fn(EntryView) -> bool)
    ensures
        s.push(x).filter(pred) == if pred(x) {
            s.filter(pred).push(x)
        } else {
            s.filter(pred)
        },
{
    reveal(Seq::filter);
    assert(s.push(x).drop_last() =~= s);
}

/// The cache keys of the images among `es`, in order: what the cache keeps.
pub open spec fn image_keys(es: Seq<EntryView>) -> Seq<Seq<char>> {
    es.filter(|e: EntryView| is_image(e)).map_values(|e: EntryView| e.key())
}

/// The images among `es` whose key is not among the cached files `present`:
/// what the cache lacks.
pub open spec fn to_fetch(es: Seq<EntryView>, present: Seq<Seq<char>>) -> Seq<EntryView> {
    es.filter(|e: EntryView| is_image(e) && !present.contains(e.key()))
}

/// The cache keys of a sequence of entries.
pub open spec fn keys(es: Seq<EntryView>) -> Seq<Seq<char>> {
    es.map_values(|e: EntryView| e.key())
}

/// What bringing the cache in line with a listing of the store takes.
pub struct SyncPlan {
    /// The images whose payload is to be fetched and cached under their key.
    pub fetch: Vec<ClipHistEntry>,
    /// The keys of all listed images: the cache is then pruned to these.
    pub keep: Vec<String>,
}

/// The plan that brings the cache, whose files are `present`, in line with
/// the store's listing `listing`.
pub fn sync_plan(listing: Vec<ClipHistEntry>, present: &Vec<String>) -> (r: SyncPlan)
    ensures
        entry_views(r.fetch@) == to_fetch(entry_views(listing@), views(present@)),
        views(r.keep@) == image_keys(entry_views(listing@)),
{
    let ghost all = entry_views(listing@);
    let ghost have = views(present@);
    let mut fetch: Vec<ClipHistEntry> = Vec::new();
    let mut keep: Vec<String> = Vec::new();
    for e in it: listing
        invariant
            all == entry_views(it.seq()),
            have == views(present@),
            entry_views(fetch@) == to_fetch(all.take(it.index()), have),
            views(keep@) == image_keys(all.take(it.index())),
    {
        let ghost before = all.take(it.index());
        proof {
            assert(all.take(it.index() + 1) =~= before.push(e@));
            lemma_filter_push(before, e@, |e: EntryView| is_image(e));
            lemma_filter_push(before, e@, |e: EntryView| is_image(e) && !have.contains(e.key()));
        }
        if e.is_image() {
            let key = CacheEntry::id(&e);
            let cached = contains_str(present, &key);
            let ghost old_keep = keep@;
            keep.push(key);
            proof {
                assert(views(keep@) =~= views(old_keep).push(e@.key()));
                assert(image_keys(before.push(e@)) =~= image_keys(before).push(e@.key()));
            }
            if !cached {
                let ghost old_fetch = fetch@;
                fetch.push(e);
                assert(entry_views(fetch@) =~= entry_views(old_fetch).push(e@));
            }
        }
    }
    assert(all.take(all.len() as int) =~= all);
    SyncPlan { fetch, keep }
}

/// Syncing reaches a fixed point: when the cache held the files `present`,
/// the payloads of [`to_fetch`] were added under their keys (the cache then
/// lists `added`), and the stale files of that listing against
/// [`image_keys`] were deleted (the cache then lists `pruned`), the cache
/// holds exactly the keys of the listed images.
pub proof fn lemma_sync_fixed_point(
    es: Seq<EntryView>,
    present: Seq<Seq<char>>,
    added: Seq<Seq<char>>,
    pruned: Seq<Seq<char>>,
)
    requires
        added.to_set() == present.to_set().union(keys(to_fetch(es, present)).to_set()),
        pruned.to_set() == added.to_set().difference(stale(added, image_keys(es)).to_set()),
    ensures
        pruned.to_set() == image_keys(es).to_set(),
{
    let keep = image_keys(es);
    let images = es.filter(|e: EntryView| is_image(e));
    let fetched = to_fetch(es, present);
    let not_kept = |f: Seq<char>| !keep.contains(f);
    assert forall|x: Seq<char>| pruned.to_set().contains(x) implies keep.contains(x) by {
        assert(added.to_set().contains(x));
        if !keep.contains(x) {
            let j = choose|j: int| 0 <= j < added.len() && added[j] == x;
            added.lemma_filter_contains(not_kept, j);
            assert(stale(added, keep).to_set().contains(x));
        }
    }
    assert forall|x: Seq<char>| keep.contains(x) implies pruned.to_set().contains(x) by {
        let j = choose|j: int| 0 <= j < keep.len() && keep[j] == x;
        let e = images[j];
        assert(images.contains(e));
        es.lemma_filter_contains_rev(|e: EntryView| is_image(e), e);
        if !present.contains(x) {
            let k = choose|k: int| 0 <= k < es.len() && es[k] == e;
            es.lemma_filter_contains(|e: EntryView| is_image(e) && !present.contains(e.key()), k);
            let m = choose|m: int| 0 <= m < fetched.len() && fetched[m] == e;
            assert(keys(fetched)[m] == x);
            assert(keys(fetched).to_set().contains(x));
        } else {
            assert(present.to_set().contains(x));
        }
        assert(added.to_set().contains(x));
        if stale(added, keep).to_set().contains(x) {
            let i = choose|i: int| 0 <= i < stale(added, keep).len() && stale(added, keep)[i] == x;
            added.lemma_filter_pred(not_kept, i);
        }
    }
    assert(pruned.to_set() =~= keep.to_set());
}

/// Deleting before or after a highlighted entry never removes it: the
/// entries before the pivot, the pivot and the entries after it make up the
/// list, a deletion before the pivot leaves it first, and a deletion after it
/// leaves it last.
pub proof fn lemma_pivot_kept(s: Seq<EntryView>, p: int)
    requires
        0 <= p < s.len(),
    ensures
        before_pivot(s, p) + seq![s[p]] + after_pivot(s, p) == s,
        before_pivot(s, p).len() == p,
        after_pivot(s, p).len() == s.len() - p - 1,
        s.skip(p)[0] == s[p],
        s.take(p + 1).last() == s[p],
{
    assert(before_pivot(s, p) + seq![s[p]] + after_pivot(s, p) =~= s);
}

impl ClipHistMode {
    /// The mode shown.
    pub closed spec fn spec_mode(&self) -> Mode {
        self.mode
    }

    closed spec fn state(&self, m: Mode) -> RofiState {
        match m {
            Mode::Text => self.txt,
            Mode::Image => self.img,
        }
    }

    /// The entries of mode `m`, in listing order.
    pub closed spec fn entries_in(&self, m: Mode) -> Seq<EntryView> {
        entry_views(self.state(m).entries@)
    }

    /// The options of mode `m`.
    pub closed spec fn options_in(&self, m: Mode) -> RofiOptions {
        self.state(m).options
    }

    /// The programs and the cache that the session uses.
    pub closed spec fn adapters(&self) -> (Rofi, SimpleCache, ClipHist, Clipboard) {
        (self.rofi, self.cache, self.cliphist, self.clipboard)
    }

    fn title(mode: Mode) -> (r: String)
        ensures
            r@ == title_of(mode),
    {
        match mode {
            Mode::Text => "Texts".to_owned(),
            Mode::Image => "Images".to_owned(),
        }
    }

    fn theme(mode: Mode) -> (r: Vec<String>)
        ensures
            views(r@) == theme_of(mode),
    {
        let mut v: Vec<String> = Vec::new();
        match mode {
            Mode::Text => {
                v.push("element { children: [element-text]; orientation: vertical; }".to_owned());
                v.push("listview { layout: vertical; }".to_owned());
            },
            Mode::Image => {
                v.push("element { children: [element-icon]; orientation: vertical;}".to_owned());
                v.push("element-icon { size: 228px; padding: 0px; }".to_owned());
                v.push(
                    "listview { layout: vertical; lines: 3; columns: 3; fixed-height: true; fixed-columns: true; }".to_owned(),
                );
            },
        }
        assert(views(v@) =~= theme_of(mode));
        v
    }

    fn options(mode: Mode, config: &ClipHistModeConfig) -> (r: RofiOptions)
        ensures
            initial_options(mode, r, *config),
    {
        let switch = match mode {
            Mode::Text => KbCustom::new(
                Action::SwitchToImage.binding(),
                config.image_mode.shortcut.as_str(),
                config.image_mode.description.as_str(),
            ),
            Mode::Image => KbCustom::new(
                Action::SwitchToText.binding(),
                config.text_mode.shortcut.as_str(),
                config.text_mode.description.as_str(),
            ),
        };
        let mut kbs: Vec<KbCustom> = Vec::new();
        kbs.push(switch);
        kbs.push(
            KbCustom::new(
                Action::DeleteOne.binding(),
                config.delete_mode.shortcut.as_str(),
                config.delete_mode.description.as_str(),
            ),
        );
        kbs.push(
            KbCustom::new(
                Action::DeleteBefore.binding(),
                config.delete_previous_mode.shortcut.as_str(),
                config.delete_previous_mode.description.as_str(),
            ),
        );
        kbs.push(
            KbCustom::new(
                Action::DeleteAfter.binding(),
                config.delete_next_mode.shortcut.as_str(),
                config.delete_next_mode.description.as_str(),
            ),
        );
        let title = Self::title(mode);
        let r = RofiOptions::new(title.as_str(), "", kbs, Self::theme(mode));
        proof {
            reveal_strlit("");
            assert(""@ =~= Seq::<char>::empty());
        }
        r
    }

    /// A session over the store's listing `listing`, showing the texts first.
    /// The texts and the images each keep their listing order.
    pub fn new(
        rofi: Rofi,
        cache: SimpleCache,
        cliphist: ClipHist,
        clipboard: Clipboard,
        config: ClipHistModeConfig,
        listing: Vec<ClipHistEntry>,
    ) -> (r: Self)
        ensures
            r.spec_mode() == Mode::Text,
            r.entries_in(Mode::Text) == entry_views(listing@).filter(|e: EntryView| is_text(e)),
            r.entries_in(Mode::Image) == entry_views(listing@).filter(|e: EntryView| is_image(e)),
            initial_options(Mode::Text, r.options_in(Mode::Text), config),
            initial_options(Mode::Image, r.options_in(Mode::Image), config),
            r.adapters() == (rofi, cache, cliphist, clipboard),
    {
        let ghost all = entry_views(listing@);
        let mut txt: Vec<ClipHistEntry> = Vec::new();
        let mut img: Vec<ClipHistEntry> = Vec::new();
        for e in it: listing
            invariant
                all == entry_views(it.seq()),
                entry_views(txt@) == all.take(it.index()).filter(|e: EntryView| is_text(e)),
                entry_views(img@) == all.take(it.index()).filter(|e: EntryView| is_image(e)),
        {
            let ghost before = all.take(it.index());
            proof {
                assert(all.take(it.index() + 1) =~= before.push(e@));
                lemma_filter_push(before, e@, |e: EntryView| is_text(e));
                lemma_filter_push(before, e@, |e: EntryView| is_image(e));
            }
            if e.is_image() {
                let ghost old_img = img@;
                img.push(e);
                assert(entry_views(img@) =~= entry_views(old_img).push(e@));
            } else {
                let ghost old_txt = txt@;
                txt.push(e);
                assert(entry_views(txt@) =~= entry_views(old_txt).push(e@));
            }
        }
        assert(all.take(all.len() as int) =~= all);
        let txt_options = Self::options(Mode::Text, &config);
        let img_options = Self::options(Mode::Image, &config);
        ClipHistMode {
            rofi,
            cache,
            cliphist,
            clipboard,
            txt: RofiState { entries: txt, options: txt_options },
            img: RofiState { entries: img, options: img_options },
            mode: Mode::Text,
        }
    }

    /// Moves the cursor of the mode shown to `id`.
    fn point_at(&mut self, id: usize)
        ensures
            final(self).adapters() == old(self).adapters(),
            final(self).spec_mode() == old(self).spec_mode(),
            final(self).entries_in(old(self).spec_mode()) == old(self).entries_in(
                old(self).spec_mode(),
            ),
            final(self).options_in(old(self).spec_mode()) == with_row(
                old(self).options_in(old(self).spec_mode()),
                id,
            ),
            other_unchanged(*old(self), *final(self), old(self).spec_mode()),
    {
        match self.mode {
            Mode::Text => {
                self.txt.options.selected_row = id;
            },
            Mode::Image => {
                self.img.options.selected_row = id;
            },
        }
    }

    /// Takes in one result of the chooser and says what to do next.
    pub fn handle(&mut self, result: RofiResult) -> (r: Result<Step, Error>)
        ensures
            final(self).adapters() == old(self).adapters(),
            transition(*old(self), *final(self), result, r),
    {
        match result {
            RofiResult::Selection { id } => match self.mode {
                Mode::Text => self.txt.select(id),
                Mode::Image => self.img.select(id),
            },
            RofiResult::Keyboard { key, id } => {
                let action = Action::from_exit_code(key);
                match action {
                    None => {
                        self.point_at(id);
                        Err(Error::UnknownAction { code: key })
                    },
                    Some(Action::SwitchToImage) => {
                        self.point_at(id);
                        self.mode = Mode::Image;
                        Ok(Step::Show)
                    },
                    Some(Action::SwitchToText) => {
                        self.point_at(id);
                        self.mode = Mode::Text;
                        Ok(Step::Show)
                    },
                    Some(a) => match self.mode {
                        Mode::Text => self.txt.delete(a, id),
                        Mode::Image => self.img.delete(a, id),
                    },
                }
            },
            _ => Ok(Step::Finish),
        }
    }

    /// The mode shown.
    pub fn mode(&self) -> (r: Mode)
        ensures
            r == self.spec_mode(),
    {
        self.mode
    }

    /// The entries of the mode shown.
    pub fn current_entries(&self) -> (r: &Vec<ClipHistEntry>)
        ensures
            entry_views(r@) == self.entries_in(self.spec_mode()),
    {
        match self.mode {
            Mode::Text => &self.txt.entries,
            Mode::Image => &self.img.entries,
        }
    }

    /// The options of the mode shown.
    pub fn current_options(&self) -> (r: &RofiOptions)
        ensures
            *r == self.options_in(self.spec_mode()),
    {
        match self.mode {
            Mode::Text => &self.txt.options,
            Mode::Image => &self.img.options,
        }
    }

    /// The chooser.
    pub fn rofi(&self) -> (r: &Rofi)
        ensures
            *r == self.adapters().0,
    {
        &self.rofi
    }

    /// The thumbnail cache.
    pub fn cache(&self) -> (r: &SimpleCache)
        ensures
            *r == self.adapters().1,
    {
        &self.cache
    }

    /// The history store.
    pub fn cliphist(&self) -> (r: &ClipHist)
        ensures
            *r == self.adapters().2,
    {
        &self.cliphist
    }

    /// The clipboard setter.
    pub fn clipboard(&self) -> (r: &Clipboard)
        ensures
            *r == self.adapters().3,
    {
        &self.clipboard
    }
}

} // verus!
