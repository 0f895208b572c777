//! The chooser protocol: the command-line flags built from a set of options,
//! the entry lines written to the chooser's input, and the decoding of its
//! exit status and output into a result.
use vstd::prelude::*;

use crate::cache::{contains_str, views, SimpleCache};
use crate::cliphist::ClipHistEntry;
use crate::error::Error;
use crate::text::{
    chars_of, decimal, i32_to_string, parse_usize, parse_usize_chars, signed_decimal, string_of,
    usize_to_string,
};

pub mod cliphist_mode;

verus! {

/// An entry that the chooser can show.
///
/// The id is what identifies the entry once it is chosen, the label is the
/// text shown, and the icon is an optional reference to an image: a cache key
/// or a path.
pub trait RofiEntry {
    spec fn id_view(&self) -> Seq<char>;

    spec fn label_view(&self) -> Seq<char>;

    spec fn icon_view(&self) -> Option<Seq<char>>;

    fn id(&self) -> (r: String)
        ensures
            r@ == self.id_view(),
    ;

    fn label(&self) -> (r: String)
        ensures
            r@ == self.label_view(),
    ;

    fn icon(&self) -> (r: Option<String>)
        ensures
            opt_view(r) == self.icon_view(),
    ;
}

/// The characters of an optional string.
pub open spec fn opt_view(o: Option<String>) -> Option<Seq<char>> {
    match o {
        Some(s) => Some(s@),
        None => None,
    }
}

/// What one run of the chooser gave.
#[derive(Debug, Clone, Copy, PartialEq, Eq, Structural)]
pub enum RofiResult {
    /// The chooser was dismissed.
    Cancel,
    /// The chooser closed without an answer.
    Empty,
    /// A custom key binding was used with the entry `id` highlighted; `key`
    /// is the chooser's exit code.
    Keyboard { key: i32, id: usize },
    /// The entry `id` was chosen.
    Selection { id: usize },
    /// The chooser was killed or stopped by the signal `key`.
    Signal { key: i32 },
}

/// How the chooser's process ended.
#[derive(Debug, Clone, Copy, PartialEq, Eq, Structural)]
pub enum ExitInfo {
    /// It exited with this code.
    Code(i32),
    /// It was killed by this signal.
    Signal(i32),
    /// It was stopped by this signal.
    Stopped(i32),
}

/// The chooser, reached through its command-line program.
pub struct Rofi {
    pub bin: String,
}

/// A chooser reached through the program `bin`.
pub fn new(bin: &str) -> (r: Rofi)
    ensures
        r.bin@ == bin@,
{
    Rofi { bin: bin.to_owned() }
}

/// A custom key binding of the chooser.
#[derive(Debug)]
pub struct KbCustom {
    key: i32,
    shortcut: String,
    description: String,
}

impl KbCustom {
    /// The binding's number: the chooser's `-kb-custom-<key>`.
    pub closed spec fn key(&self) -> i32 {
        self.key
    }

    /// The key chord.
    pub closed spec fn shortcut(&self) -> Seq<char> {
        self.shortcut@
    }

    /// What the binding does, as shown to the user.
    pub closed spec fn description(&self) -> Seq<char> {
        self.description@
    }

    pub fn new(key: i32, shortcut: &str, description: &str) -> (r: Self)
        ensures
            r.key() == key,
            r.shortcut() == shortcut@,
            r.description() == description@,
    {
        KbCustom { key, shortcut: shortcut.to_owned(), description: description.to_owned() }
    }
}

/// Options of one run of the chooser.
///
/// The chooser is always asked for the index of the chosen entry
/// (`-format i`), so that the output format is not an option.
#[derive(Debug)]
pub struct RofiOptions {
    pub case_insensitive: bool,
    pub custom_kbs: Vec<KbCustom>,
    pub dmenu: bool,
    pub mesg: Option<String>,
    pub no_custom: bool,
    pub prompt: Option<String>,
    pub selected_row: usize,
    pub theme_str: Vec<String>,
}

impl Default for RofiOptions {
    fn default() -> (r: Self)
        ensures
            r.case_insensitive,
            r.custom_kbs@.len() == 0,
            r.dmenu,
            r.mesg is None,
            r.no_custom,
            r.prompt is None,
            r.selected_row == 0,
            r.theme_str@.len() == 0,
    {
        RofiOptions {
            case_insensitive: true,
            custom_kbs: Vec::new(),
            dmenu: true,
            mesg: None,
            no_custom: true,
            prompt: None,
            selected_row: 0,
            theme_str: Vec::new(),
        }
    }
}

/// `flag` when `on` holds, nothing otherwise.
pub open spec fn flag(on: bool, flag: Seq<char>) -> Seq<Seq<char>> {
    if on {
        seq![flag]
    } else {
        seq![]
    }
}

/// The pango escape of one character.
pub open spec fn escape_char(c: char) -> Seq<char> {
    if c == '&' {
        "&amp;"@
    } else if c == '<' {
        "&lt;"@
    } else if c == '>' {
        "&gt;"@
    } else if c == '\'' {
        "&apos;"@
    } else if c == '"' {
        "&quot;"@
    } else {
        seq![c]
    }
}

/// `s` with the characters that pango markup reserves escaped.
pub open spec fn escape(s: Seq<char>) -> Seq<char>
    decreases s.len(),
{
    if s.len() == 0 {
        seq![]
    } else {
        escape(s.drop_last()) + escape_char(s.last())
    }
}

/// `-kb-custom-<key> <shortcut>` for each binding.
pub open spec fn kb_args(kbs: Seq<KbCustom>) -> Seq<Seq<char>>
    decreases kbs.len(),
{
    if kbs.len() == 0 {
        seq![]
    } else {
        kb_args(kbs.drop_last()) + seq![
            "-kb-custom-"@ + signed_decimal(kbs.last().key() as int),
            kbs.last().shortcut(),
        ]
    }
}

/// `<b>shortcut</b>: description`, both escaped.
pub open spec fn kb_hint(kb: KbCustom) -> Seq<char> {
    "<b>"@ + escape(kb.shortcut()) + "</b>: "@ + escape(kb.description())
}

/// The hints of all bindings, joined by ` | `.
pub open spec fn kb_hints(kbs: Seq<KbCustom>) -> Seq<char>
    decreases kbs.len(),
{
    if kbs.len() == 0 {
        seq![]
    } else if kbs.len() == 1 {
        kb_hint(kbs[0])
    } else {
        kb_hints(kbs.drop_last()) + " | "@ + kb_hint(kbs.last())
    }
}

/// The message line that lists the bindings.
pub open spec fn kb_mesg(kbs: Seq<KbCustom>) -> Seq<char> {
    "<span size='small' alpha='70%'>"@ + kb_hints(kbs) + "</span>"@
}

/// `-theme-str <theme>` for each theme string.
pub open spec fn theme_args(themes: Seq<Seq<char>>) -> Seq<Seq<char>>
    decreases themes.len(),
{
    if themes.len() == 0 {
        seq![]
    } else {
        theme_args(themes.drop_last()) + seq!["-theme-str"@, themes.last()]
    }
}

/// The chooser's flags for a set of options.
pub open spec fn option_args(o: RofiOptions) -> Seq<Seq<char>> {
    seq!["-selected-row"@, decimal(o.selected_row as nat)] + flag(o.dmenu, "-dmenu"@) + flag(
        o.case_insensitive,
        "-i"@,
    ) + flag(o.no_custom, "-no-custom"@) + seq!["-format"@, "i"@] + kb_args(o.custom_kbs@) + (if o.custom_kbs@.len() > 0 {
        seq!["-mesg"@, kb_mesg(o.custom_kbs@)]
    } else {
        seq![]
    }) + (match o.prompt {
        Some(p) => seq!["-p"@, p@],
        None => seq![],
    }) + theme_args(views(o.theme_str@))
}

/// The message shown when there is nothing to choose from.
pub open spec fn empty_message(prompt: Option<Seq<char>>) -> Seq<char> {
    match prompt {
        Some(p) => "<b>"@ + p + "</b>: "@ + "No clipboard entries to show"@,
        None => "No clipboard entries to show"@,
    }
}

/// The chooser's flags when there is nothing to choose from: it only shows a
/// message.
pub open spec fn error_args(o: RofiOptions) -> Seq<Seq<char>> {
    seq!["-e"@, empty_message(opt_view(o.prompt)), "-markup"@]
}

/// The flags of a run that shows `shown` entries.
pub open spec fn command_args_of(shown: usize, o: RofiOptions) -> Seq<Seq<char>> {
    if shown == 0 {
        error_args(o)
    } else {
        option_args(o)
    }
}

fn push_chars(out: &mut Vec<char>, s: &str)
    ensures
        final(out)@ == old(out)@ + s@,
{
    let mut c = chars_of(s);
    out.append(&mut c);
}

/// `s` with the characters that pango markup reserves escaped.
pub fn markup_escape(s: &str) -> (r: String)
    ensures
        r@ == escape(s@),
{
    let v = chars_of(s);
    let mut out: Vec<char> = Vec::new();
    let mut i: usize = 0;
    while i < v.len()
        invariant
            i <= v.len(),
            v@ == s@,
            out@ == escape(v@.take(i as int)),
        decreases v.len() - i,
    {
        let c = v[i];
        if c == '&' {
            push_chars(&mut out, "&amp;");
        } else if c == '<' {
            push_chars(&mut out, "&lt;");
        } else if c == '>' {
            push_chars(&mut out, "&gt;");
        } else if c == '\'' {
            push_chars(&mut out, "&apos;");
        } else if c == '"' {
            push_chars(&mut out, "&quot;");
        } else {
            out.push(c);
        }
        assert(v@.take(i + 1).drop_last() =~= v@.take(i as int));
        i = i + 1;
    }
    assert(v@.take(v.len() as int) =~= v@);
    string_of(out.as_slice())
}

impl RofiOptions {
    /// Options with a prompt, a message, key bindings and theme strings, and
    /// the defaults for the rest.
    pub fn new(prompt: &str, mesg: &str, custom_kbs: Vec<KbCustom>, theme_str: Vec<String>) -> (r:
        Self)
        ensures
            r.case_insensitive,
            r.custom_kbs@ == custom_kbs@,
            r.dmenu,
            opt_view(r.mesg) == Some(mesg@),
            r.no_custom,
            opt_view(r.prompt) == Some(prompt@),
            r.selected_row == 0,
            r.theme_str@ == theme_str@,
    {
        let d = RofiOptions::default();
        RofiOptions {
            mesg: Some(mesg.to_owned()),
            prompt: Some(prompt.to_owned()),
            custom_kbs,
            theme_str,
            ..d
        }
    }

    /// The chooser's flags for these options.
    pub fn args(&self) -> (r: Vec<String>)
        ensures
            views(r@) == option_args(*self),
    {
        let mut out: Vec<String> = Vec::new();
        out.push("-selected-row".to_owned());
        out.push(usize_to_string(self.selected_row));
        if self.dmenu {
            out.push("-dmenu".to_owned());
        }
        if self.case_insensitive {
            out.push("-i".to_owned());
        }
        if self.no_custom {
            out.push("-no-custom".to_owned());
        }
        out.push("-format".to_owned());
        out.push("i".to_owned());
        let ghost head = seq!["-selected-row"@, decimal(self.selected_row as nat)] + flag(
            self.dmenu,
            "-dmenu"@,
        ) + flag(self.case_insensitive, "-i"@) + flag(self.no_custom, "-no-custom"@) + seq![
            "-format"@,
            "i"@,
        ];
        assert(views(out@) =~= head);
        let kbs = &self.custom_kbs;
        let mut i: usize = 0;
        while i < kbs.len()
            invariant
                i <= kbs.len(),
                views(out@) == head + kb_args(kbs@.take(i as int)),
            decreases kbs.len() - i,
        {
            let mut name = "-kb-custom-".to_owned();
            let k = i32_to_string(kbs[i].key);
            name.append(k.as_str());
            let ghost before = views(out@);
            out.push(name);
            out.push(kbs[i].shortcut.clone());
            proof {
                assert(kbs@.take(i + 1).drop_last() =~= kbs@.take(i as int));
                assert(views(out@) =~= before + seq![
                    "-kb-custom-"@ + signed_decimal(kbs@[i as int].key() as int),
                    kbs@[i as int].shortcut(),
                ]);
            }
            i = i + 1;
        }
        assert(kbs@.take(kbs.len() as int) =~= kbs@);
        if kbs.len() > 0 {
            out.push("-mesg".to_owned());
            out.push(kb_message(kbs));
        }
        let ghost mid = views(out@);
        match &self.prompt {
            Some(p) => {
                out.push("-p".to_owned());
                out.push(p.clone());
            },
            None => {},
        }
        let ghost head2 = views(out@);
        let themes = &self.theme_str;
        let mut j: usize = 0;
        while j < themes.len()
            invariant
                j <= themes.len(),
                views(out@) == head2 + theme_args(views(themes@).take(j as int)),
            decreases themes.len() - j,
        {
            let ghost before = views(out@);
            out.push("-theme-str".to_owned());
            out.push(themes[j].clone());
            proof {
                assert(views(themes@).take(j + 1).drop_last() =~= views(themes@).take(j as int));
                assert(views(out@) =~= before + seq!["-theme-str"@, themes@[j as int]@]);
            }
            j = j + 1;
        }
        assert(views(themes@).take(themes.len() as int) =~= views(themes@));
        assert(views(out@) =~= option_args(*self));
        out
    }

    /// The chooser's flags when there is nothing to choose from.
    pub fn error_args(&self) -> (r: Vec<String>)
        ensures
            views(r@) == error_args(*self),
    {
        let msg = match &self.prompt {
            Some(p) => {
                let mut m = "<b>".to_owned();
                m.append(p.as_str());
                m.append("</b>: ");
                m.append("No clipboard entries to show");
                m
            },
            None => "No clipboard entries to show".to_owned(),
        };
        let mut out: Vec<String> = Vec::new();
        out.push("-e".to_owned());
        out.push(msg);
        out.push("-markup".to_owned());
        assert(views(out@) =~= error_args(*self));
        out
    }
}

/// The message line that lists the bindings.
fn kb_message(kbs: &Vec<KbCustom>) -> (r: String)
    ensures
        r@ == kb_mesg(kbs@),
{
    let mut m = "<span size='small' alpha='70%'>".to_owned();
    let ghost start = m@;
    let mut i: usize = 0;
    while i < kbs.len()
        invariant
            i <= kbs.len(),
            start == "<span size='small' alpha='70%'>"@,
            m@ == start + kb_hints(kbs@.take(i as int)),
        decreases kbs.len() - i,
    {
        let ghost before = m@;
        if i > 0 {
            m.append(" | ");
        }
        m.append("<b>");
        let s = markup_escape(kbs[i].shortcut.as_str());
        m.append(s.as_str());
        m.append("</b>: ");
        let d = markup_escape(kbs[i].description.as_str());
        m.append(d.as_str());
        proof {
            let t = kbs@.take(i + 1);
            assert(t.drop_last() =~= kbs@.take(i as int));
            if i == 0 {
                assert(kbs@.take(i as int).len() == 0);
                assert(m@ =~= start + kb_hint(t[0]));
            } else {
                assert(m@ =~= start + (kb_hints(kbs@.take(i as int)) + " | "@ + kb_hint(t.last())));
            }
        }
        i = i + 1;
    }
    assert(kbs@.take(kbs.len() as int) =~= kbs@);
    m.append("</span>");
    m
}

/// The chooser's flags for a run that shows `shown` entries: a message alone
/// when there are none, the options' flags otherwise.
pub fn command_args(shown: usize, options: &RofiOptions) -> (r: Vec<String>)
    ensures
        views(r@) == command_args_of(shown, *options),
{
    if shown == 0 {
        options.error_args()
    } else {
        options.args()
    }
}

/// Where the chooser finds an icon: the cached file when the cache holds
/// one, the reference as it is otherwise.
pub open spec fn icon_ref(cache: SimpleCache, present: Seq<Seq<char>>, icon: Seq<char>) -> Seq<
    char,
> {
    if present.contains(icon) {
        cache.dir() + seq!['/'] + icon
    } else {
        icon
    }
}

/// The input line of one entry: its label, then, if it has an icon,
/// `\0icon\x1f` and where to find the icon; then a newline.
pub open spec fn entry_line(
    label: Seq<char>,
    icon: Option<Seq<char>>,
    cache: SimpleCache,
    present: Seq<Seq<char>>,
) -> Seq<char> {
    label + (match icon {
        Some(i) => "\0icon\x1f"@ + icon_ref(cache, present, i),
        None => seq![],
    }) + seq!['\n']
}

/// The chooser's whole input for `entries`.
pub open spec fn input_of<E: RofiEntry>(
    entries: Seq<E>,
    cache: SimpleCache,
    present: Seq<Seq<char>>,
) -> Seq<char>
    decreases entries.len(),
{
    if entries.len() == 0 {
        seq![]
    } else {
        input_of(entries.drop_last(), cache, present) + entry_line(
            entries.last().label_view(),
            entries.last().icon_view(),
            cache,
            present,
        )
    }
}

/// The chooser's input for `entries`, where `present` lists the files that
/// the cache holds.
pub fn input_text<E: RofiEntry>(entries: &[E], cache: &SimpleCache, present: &Vec<String>) -> (r:
    String)
    ensures
        r@ == input_of(entries@, *cache, views(present@)),
{
    let mut out = String::new();
    let mut i: usize = 0;
    while i < entries.len()
        invariant
            i <= entries.len(),
            out@ == input_of(entries@.take(i as int), *cache, views(present@)),
        decreases entries.len() - i,
    {
        let ghost before = out@;
        let e = &entries[i];
        let label = e.label();
        out.append(label.as_str());
        let ghost with_label = out@;
        match e.icon() {
            Some(icon) => {
                out.append("\0icon\x1f");
                if contains_str(present, &icon) {
                    let p = cache.path(icon.as_str());
                    out.append(p.as_str());
                } else {
                    out.append(icon.as_str());
                }
            },
            None => {},
        }
        out.append("\n");
        proof {
            reveal_strlit("\n");
            assert(entries@.take(i + 1).drop_last() =~= entries@.take(i as int));
            assert(out@ =~= before + entry_line(
                e.label_view(),
                e.icon_view(),
                *cache,
                views(present@),
            ));
        }
        i = i + 1;
    }
    assert(entries@.take(entries.len() as int) =~= entries@);
    out
}

/// The chooser's output without one trailing newline.
pub open spec fn strip_newline(s: Seq<char>) -> Seq<char> {
    if s.len() > 0 && s.last() == '\n' {
        s.drop_last()
    } else {
        s
    }
}

/// Decodes one run of the chooser that showed `shown` entries: how it ended
/// and what it printed.
///
/// A run that showed nothing is a dismissal: `Empty` on success, `Cancel`
/// otherwise. Otherwise success without output is `Empty` and with an index
/// a `Selection`; another exit code without output is `Cancel` and with an
/// index a `Keyboard` action of that code. A signal gives `Signal`.
pub fn decode_result(shown: usize, status: ExitInfo, output: &str) -> (r: Result<
    RofiResult,
    Error,
>)
    ensures
        match status {
            ExitInfo::Signal(s) => r == Ok::<RofiResult, Error>(RofiResult::Signal { key: s }),
            ExitInfo::Stopped(s) => r == Ok::<RofiResult, Error>(RofiResult::Signal { key: s }),
            ExitInfo::Code(c) => if shown == 0 || strip_newline(output@).len() == 0 {
                r == Ok::<RofiResult, Error>(
                    if c == 0 {
                        RofiResult::Empty
                    } else {
                        RofiResult::Cancel
                    },
                )
            } else {
                match parse_usize(strip_newline(output@)) {
                    Some(n) => r == Ok::<RofiResult, Error>(
                        if c == 0 {
                            RofiResult::Selection { id: n }
                        } else {
                            RofiResult::Keyboard { key: c, id: n }
                        },
                    ),
                    None => r matches Err(Error::InvalidIndex { output: o }) && o@
                        == strip_newline(output@),
                }
            },
        },
{
    let c = match status {
        ExitInfo::Signal(s) => {
            return Ok(RofiResult::Signal { key: s });
        },
        ExitInfo::Stopped(s) => {
            return Ok(RofiResult::Signal { key: s });
        },
        ExitInfo::Code(c) => c,
    };
    let chars = chars_of(output);
    let mut end = chars.len();
    if end > 0 && chars[end - 1] == '\n' {
        end = end - 1;
    }
    let text = vstd::slice::slice_subrange(chars.as_slice(), 0, end);
    assert(text@ =~= strip_newline(output@));
    if shown == 0 || end == 0 {
        if c == 0 {
            return Ok(RofiResult::Empty);
        } else {
            return Ok(RofiResult::Cancel);
        }
    }
    match parse_usize_chars(text) {
        Some(n) => if c == 0 {
            Ok(RofiResult::Selection { id: n })
        } else {
            Ok(RofiResult::Keyboard { key: c, id: n })
        },
        None => Err(Error::InvalidIndex { output: string_of(text) }),
    }
}

impl RofiEntry for ClipHistEntry {
    open spec fn id_view(&self) -> Seq<char> {
        self@.id()
    }

    open spec fn label_view(&self) -> Seq<char> {
        self@.label()
    }

    open spec fn icon_view(&self) -> Option<Seq<char>> {
        self@.icon()
    }

    fn id(&self) -> (r: String) {
        self.store_id()
    }

    fn icon(&self) -> (r: Option<String>) {
        if self.is_image() {
            Some(self.file_name())
        } else {
            None
        }
    }

    fn label(&self) -> (r: String) {
        match self {
            ClipHistEntry::Text { title, .. } => title.clone(),
            ClipHistEntry::Image { .. } => self.file_name(),
        }
    }
}

} // verus!
