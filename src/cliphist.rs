//! The clipboard-history store: its entries, the grammar of its listing, and
//! the requests that remove an entry or fetch its payload.
use vstd::prelude::*;
use vstd::slice::slice_subrange;

use crate::cache::CacheEntry;
use crate::error::Error;
use crate::text::{all_digits, chars_of, decode_lossy, is_digit, lossy_utf8, string_of};

verus! {

/// An entry of the clipboard history.
#[derive(Debug)]
pub enum ClipHistEntry {
    Text { id: String, title: String },
    Image { id: String, content_type: String },
}

/// The characters of a history entry.
pub enum EntryView {
    Text { id: Seq<char>, title: Seq<char> },
    Image { id: Seq<char>, content_type: Seq<char> },
}

impl View for ClipHistEntry {
    type V = EntryView;

    open spec fn view(&self) -> EntryView {
        match self {
            ClipHistEntry::Text { id, title } => EntryView::Text { id: id@, title: title@ },
            ClipHistEntry::Image { id, content_type } => EntryView::Image {
                id: id@,
                content_type: content_type@,
            },
        }
    }
}

impl EntryView {
    /// The identity that the store knows the entry by.
    pub open spec fn id(self) -> Seq<char> {
        match self {
            EntryView::Text { id, .. } => id,
            EntryView::Image { id, .. } => id,
        }
    }

    /// Whether the entry is an image.
    pub open spec fn is_image(self) -> bool {
        self is Image
    }

    /// `<id>.<content_type>` for an image.
    pub open spec fn file_name(self) -> Seq<char> {
        match self {
            EntryView::Text { id, .. } => id,
            EntryView::Image { id, content_type } => id + seq!['.'] + content_type,
        }
    }

    /// The cache key: `<id>.<content_type>` for an image, the id for a text.
    pub open spec fn key(self) -> Seq<char> {
        self.file_name()
    }

    /// What the chooser shows: the title of a text, the file name of an image.
    pub open spec fn label(self) -> Seq<char> {
        match self {
            EntryView::Text { title, .. } => title,
            EntryView::Image { .. } => self.file_name(),
        }
    }

    /// The icon reference: the cache key of an image; a text has none.
    pub open spec fn icon(self) -> Option<Seq<char>> {
        match self {
            EntryView::Text { .. } => None,
            EntryView::Image { .. } => Some(self.file_name()),
        }
    }
}

/// Whether `line` splits at index `k` into `<digits>\t<value>`, where the
/// value holds no newline.
pub open spec fn splits_at(line: Seq<char>, k: int) -> bool {
    &&& 1 <= k < line.len()
    &&& line[k] == '\t'
    &&& all_digits(line.take(k))
    &&& forall|i: int| k < i < line.len() ==> line[i] != '\n'
}

/// The index and the value of a listing line `<digits>\t<value>`.
pub open spec fn line_fields(line: Seq<char>) -> Option<(Seq<char>, Seq<char>)> {
    if exists|k: int| splits_at(line, k) {
        let k = choose|k: int| splits_at(line, k);
        Some((line.take(k), line.skip(k + 1)))
    } else {
        None
    }
}

/// The Unicode `White_Space` characters.
pub open spec fn is_white_space(c: char) -> bool {
    ||| ('\u{9}' <= c && c <= '\u{d}')
    ||| c == ' '
    ||| c == '\u{85}'
    ||| c == '\u{a0}'
    ||| c == '\u{1680}'
    ||| ('\u{2000}' <= c && c <= '\u{200a}')
    ||| c == '\u{2028}'
    ||| c == '\u{2029}'
    ||| c == '\u{202f}'
    ||| c == '\u{205f}'
    ||| c == '\u{3000}'
}

/// Whether the word `binary` starts at `p`.
pub open spec fn is_binary_at(v: Seq<char>, p: int) -> bool {
    &&& 0 <= p && p + 6 <= v.len()
    &&& v[p] == 'b' && v[p + 1] == 'i' && v[p + 2] == 'n'
    &&& v[p + 3] == 'a' && v[p + 4] == 'r' && v[p + 5] == 'y'
}

/// Where the text after the word `binary` starts, for a value that begins
/// with `binary`, or with `[[`, a white space and `binary`.
pub open spec fn binary_tail(v: Seq<char>) -> Option<int> {
    if v.len() >= 3 && v[0] == '[' && v[1] == '[' && is_white_space(v[2]) && is_binary_at(v, 3) {
        Some(9)
    } else if is_binary_at(v, 0) {
        Some(6)
    } else {
        None
    }
}

/// The image extension (`jpg`, `jpeg`, `png` or `bmp`) that starts at `p`.
pub open spec fn ext_at(v: Seq<char>, p: int) -> Option<Seq<char>> {
    if 0 <= p && p + 3 <= v.len() && v[p] == 'j' && v[p + 1] == 'p' && v[p + 2] == 'g' {
        Some(v.subrange(p, p + 3))
    } else if 0 <= p && p + 4 <= v.len() && v[p] == 'j' && v[p + 1] == 'p' && v[p + 2] == 'e'
        && v[p + 3] == 'g' {
        Some(v.subrange(p, p + 4))
    } else if 0 <= p && p + 3 <= v.len() && v[p] == 'p' && v[p + 1] == 'n' && v[p + 2] == 'g' {
        Some(v.subrange(p, p + 3))
    } else if 0 <= p && p + 3 <= v.len() && v[p] == 'b' && v[p + 1] == 'm' && v[p + 2] == 'p' {
        Some(v.subrange(p, p + 3))
    } else {
        None
    }
}

/// The extension that starts last among the positions `lo..=p`.
pub open spec fn last_ext(v: Seq<char>, lo: int, p: int) -> Option<Seq<char>>
    decreases p - lo + 1,
{
    if p < lo {
        None
    } else if ext_at(v, p) is Some {
        ext_at(v, p)
    } else {
        last_ext(v, lo, p - 1)
    }
}

/// The content type of a value that describes binary image data: the value
/// begins with `binary` (optionally behind `[[ `) and an image extension
/// follows; the last such extension is the content type.
pub open spec fn image_ext(v: Seq<char>) -> Option<Seq<char>> {
    match binary_tail(v) {
        Some(lo) => last_ext(v, lo, v.len() - 3),
        None => None,
    }
}

/// The entry that a listing line describes, if the line is well formed.
pub open spec fn parse_line(line: Seq<char>) -> Option<EntryView> {
    match line_fields(line) {
        None => None,
        Some((id, value)) => match image_ext(value) {
            Some(ext) => Some(EntryView::Image { id, content_type: ext }),
            None => Some(EntryView::Text { id, title: value }),
        },
    }
}

/// The non-empty lines of `cur + s`, where `cur` is a line already begun.
pub open spec fn lines_from(cur: Seq<char>, s: Seq<char>) -> Seq<Seq<char>>
    decreases s.len(),
{
    if s.len() == 0 {
        if cur.len() > 0 {
            seq![cur]
        } else {
            seq![]
        }
    } else if s[0] == '\n' {
        (if cur.len() > 0 {
            seq![cur]
        } else {
            seq![]
        }) + lines_from(seq![], s.drop_first())
    } else {
        lines_from(cur.push(s[0]), s.drop_first())
    }
}

/// The non-empty lines of `s`, split at `\n`.
pub open spec fn lines_of(s: Seq<char>) -> Seq<Seq<char>> {
    lines_from(seq![], s)
}

/// Whether every line of the listing `text` is well formed.
pub open spec fn listing_ok(text: Seq<char>) -> bool {
    forall|i: int| 0 <= i < lines_of(text).len() ==> (#[trigger] parse_line(lines_of(text)[i])) is Some
}

/// The entries of a well-formed listing, in listing order.
pub open spec fn listing_entries(text: Seq<char>) -> Seq<EntryView> {
    lines_of(text).map_values(|l: Seq<char>| parse_line(l)->0)
}

/// The views of a sequence of entries.
pub open spec fn entry_views(v: Seq<ClipHistEntry>) -> Seq<EntryView> {
    v.map_values(|e: ClipHistEntry| e@)
}

/// Whether `c` is a Unicode `White_Space` character.
pub fn white_space(c: char) -> (r: bool)
    ensures
        r == is_white_space(c),
{
    ('\u{9}' <= c && c <= '\u{d}') || c == ' ' || c == '\u{85}' || c == '\u{a0}' || c == '\u{1680}'
        || ('\u{2000}' <= c && c <= '\u{200a}') || c == '\u{2028}' || c == '\u{2029}' || c
        == '\u{202f}' || c == '\u{205f}' || c == '\u{3000}'
}

fn binary_at(v: &[char], p: usize) -> (r: bool)
    ensures
        r == is_binary_at(v@, p as int),
{
    p <= v.len() && v.len() - p >= 6 && v[p] == 'b' && v[p + 1] == 'i' && v[p + 2] == 'n' && v[p
        + 3] == 'a' && v[p + 4] == 'r' && v[p + 5] == 'y'
}

/// The length of the extension that starts at `p`, if one does.
fn ext_len_at(v: &[char], p: usize) -> (r: Option<usize>)
    requires
        p <= v.len(),
    ensures
        match r {
            Some(n) => p + n <= v.len() && ext_at(v@, p as int) == Some(
                v@.subrange(p as int, p + n),
            ),
            None => ext_at(v@, p as int) is None,
        },
{
    let rest = v.len() - p;
    if rest >= 3 && v[p] == 'j' && v[p + 1] == 'p' && v[p + 2] == 'g' {
        Some(3)
    } else if rest >= 4 && v[p] == 'j' && v[p + 1] == 'p' && v[p + 2] == 'e' && v[p + 3] == 'g' {
        Some(4)
    } else if rest >= 3 && v[p] == 'p' && v[p + 1] == 'n' && v[p + 2] == 'g' {
        Some(3)
    } else if rest >= 3 && v[p] == 'b' && v[p + 1] == 'm' && v[p + 2] == 'p' {
        Some(3)
    } else {
        None
    }
}

/// Where the content type of an image value lies in it, if the value
/// describes an image.
fn image_ext_range(v: &[char]) -> (r: Option<(usize, usize)>)
    ensures
        match r {
            Some((a, b)) => a <= b <= v.len() && image_ext(v@) == Some(
                v@.subrange(a as int, b as int),
            ),
            None => image_ext(v@) is None,
        },
{
    let lo: usize = if v.len() >= 3 && v[0] == '[' && v[1] == '[' && white_space(v[2]) && binary_at(
        v,
        3,
    ) {
        9
    } else if binary_at(v, 0) {
        6
    } else {
        return None;
    };
    assert(binary_tail(v@) == Some(lo as int));
    if v.len() < 3 || v.len() - 3 < lo {
        return None;
    }
    // `q` is one past the next position to look at.
    let mut q: usize = v.len() - 2;
    while q > lo
        invariant
            lo < v.len(),
            lo <= q <= v.len() - 2,
            image_ext(v@) == last_ext(v@, lo as int, q - 1),
        decreases q,
    {
        let p = q - 1;
        match ext_len_at(v, p) {
            Some(n) => {
                return Some((p, p + n));
            },
            None => {},
        }
        q = p;
    }
    None
}

/// Parses one listing line given as characters.
fn parse_line_chars(line: &[char]) -> (r: Option<ClipHistEntry>)
    ensures
        match r {
            Some(e) => parse_line(line@) == Some(e@),
            None => parse_line(line@) is None,
        },
{
    let n = line.len();
    let mut k: usize = 0;
    while k < n && line[k] >= '0' && line[k] <= '9'
        invariant
            k <= n,
            n == line@.len(),
            all_digits(line@.take(k as int)),
        decreases n - k,
    {
        assert(line@.take(k + 1) =~= line@.take(k as int).push(line@[k as int]));
        k = k + 1;
    }
    if k == 0 || k >= n || line[k] != '\t' {
        proof {
            assert forall|j: int| !splits_at(line@, j) by {
                if splits_at(line@, j) {
                    if j < k {
                        assert(is_digit(line@.take(k as int)[j]));
                    } else if j > k {
                        assert(is_digit(line@.take(j)[k as int]));
                    } else {
                        assert(line@.take(j).len() > 0);
                    }
                }
            }
        }
        return None;
    }
    let mut i: usize = k + 1;
    while i < n
        invariant
            k < i <= n,
            1 <= k,
            n == line@.len(),
            line@[k as int] == '\t',
            all_digits(line@.take(k as int)),
            forall|j: int| k < j < i ==> line@[j] != '\n',
        decreases n - i,
    {
        if line[i] == '\n' {
            proof {
                assert forall|j: int| !splits_at(line@, j) by {
                    if splits_at(line@, j) {
                        if j < k {
                            assert(is_digit(line@.take(k as int)[j]));
                        } else if j > k {
                            assert(is_digit(line@.take(j)[k as int]));
                        } else {
                            assert(line@[i as int] == '\n');
                        }
                    }
                }
            }
            return None;
        }
        i = i + 1;
    }
    proof {
        assert(splits_at(line@, k as int));
        let c = choose|c: int| splits_at(line@, c);
        if c < k {
            assert(is_digit(line@.take(k as int)[c]));
        } else if c > k {
            assert(is_digit(line@.take(c)[k as int]));
        }
        assert(c == k);
    }
    let id = string_of(slice_subrange(line, 0, k));
    let value = slice_subrange(line, k + 1, n);
    assert(line@.take(k as int) =~= line@.subrange(0, k as int));
    assert(line@.skip(k + 1) =~= line@.subrange(k + 1, n as int));
    match image_ext_range(value) {
        Some((a, b)) => {
            let content_type = string_of(slice_subrange(value, a, b));
            Some(ClipHistEntry::Image { id, content_type })
        },
        None => Some(ClipHistEntry::Text { id, title: string_of(value) }),
    }
}

/// Parses one line of the store's listing: `<digits>\t<value>` gives an image
/// entry when the value describes binary image data and a text entry
/// otherwise.
pub fn parse_entry(line: &str) -> (r: Result<ClipHistEntry, Error>)
    ensures
        match r {
            Ok(e) => parse_line(line@) == Some(e@),
            Err(err) => parse_line(line@) is None && (err matches Error::InvalidEntry { line: l }
                && l@ == line@),
        },
{
    let chars = chars_of(line);
    match parse_line_chars(chars.as_slice()) {
        Some(e) => Ok(e),
        None => Err(Error::InvalidEntry { line: line.to_owned() }),
    }
}

/// Parses the store's whole listing output: decoded as UTF-8 (invalid
/// sequences replaced), then parsed as [`parse_listing_text`] does.
pub fn parse_listing(output: &[u8]) -> (r: Result<Vec<ClipHistEntry>, Error>)
    ensures
        listing_result(lossy_utf8(output@), r),
{
    let text = decode_lossy(output);
    parse_listing_text(text.as_str())
}

/// What parsing the listing `t` gives: the entries of its lines when each
/// line is well formed, else an error that names the first bad line.
pub open spec fn listing_result(t: Seq<char>, r: Result<Vec<ClipHistEntry>, Error>) -> bool {
    &&& r is Ok <==> listing_ok(t)
    &&& match r {
        Ok(v) => entry_views(v@) == listing_entries(t),
        Err(err) => exists|i: int|
            {
                &&& 0 <= i < lines_of(t).len()
                &&& parse_line(#[trigger] lines_of(t)[i]) is None
                &&& forall|j: int| 0 <= j < i ==> parse_line(lines_of(t)[j]) is Some
                &&& (err matches Error::InvalidEntry { line: l } && l@ == lines_of(t)[i])
            },
    }
}

/// Parses the store's listing: split at newlines, empty lines skipped, each
/// line parsed as [`parse_entry`] does. Fails on the first line that is not
/// well formed.
pub fn parse_listing_text(text: &str) -> (r: Result<Vec<ClipHistEntry>, Error>)
    ensures
        listing_result(text@, r),
{
    let chars = chars_of(text);
    let ghost t = text@;
    let ghost mut done: Seq<Seq<char>> = seq![];
    let mut entries: Vec<ClipHistEntry> = Vec::new();
    let n = chars.len();
    let mut start: usize = 0;
    let mut i: usize = 0;
    assert(t.subrange(0, 0) =~= seq![]);
    assert(t.skip(0) =~= t);
    assert(lines_of(t) =~= done + lines_from(t.subrange(0, 0), t.skip(0)));
    let mut at_end = false;
    while !at_end
        invariant
            t == text@,
            chars@ == t,
            n == t.len(),
            start <= i <= n,
            !at_end ==> forall|j: int| start <= j < i ==> t[j] != '\n',
            !at_end ==> lines_of(t) == done + lines_from(
                t.subrange(start as int, i as int),
                t.skip(i as int),
            ),
            at_end ==> lines_of(t) == done,
            forall|j: int| 0 <= j < done.len() ==> (#[trigger] parse_line(done[j])) is Some,
            entries@.len() == done.len(),
            forall|j: int| 0 <= j < done.len() ==> Some((#[trigger] entries@[j])@) == parse_line(done[j]),
        decreases n + 1 - i - (if at_end {
            1int
        } else {
            0int
        }),
    {
        let ghost cur = t.subrange(start as int, i as int);
        if i == n || chars[i] == '\n' {
            proof {
                if i < n {
                    assert(t.skip(i as int).drop_first() =~= t.skip(i + 1));
                    assert(t.subrange(i + 1, i + 1) =~= seq![]);
                } else {
                    assert(t.skip(i as int).len() == 0);
                }
            }
            if i > start {
                let line = slice_subrange(chars.as_slice(), start, i);
                match parse_line_chars(line) {
                    Some(e) => {
                        entries.push(e);
                        proof {
                            let ghost old_done = done;
                            done = done.push(cur);
                            assert(old_done + seq![cur] =~= done);
                            assert(lines_of(t) =~= done + (if i < n {
                                lines_from(seq![], t.skip(i + 1))
                            } else {
                                seq![]
                            }));
                        }
                    },
                    None => {
                        proof {
                            let ghost rest = if i < n {
                                lines_from(seq![], t.skip(i + 1))
                            } else {
                                seq![]
                            };
                            assert(lines_of(t) =~= done + seq![cur] + rest);
                            assert(lines_of(t)[done.len() as int] == cur);
                            assert(parse_line(lines_of(t)[done.len() as int]) is None);
                        }
                        return Err(Error::InvalidEntry { line: string_of(line) });
                    },
                }
            } else {
                proof {
                    assert(cur.len() == 0);
                    if i < n {
                        assert(lines_of(t) =~= done + lines_from(seq![], t.skip(i + 1)));
                    } else {
                        assert(lines_of(t) =~= done);
                    }
                }
            }
            if i == n {
                at_end = true;
            } else {
                start = i + 1;
                i = i + 1;
                assert(t.subrange(start as int, i as int) =~= seq![]);
            }
        } else {
            proof {
                assert(t.skip(i as int)[0] == t[i as int]);
                assert(t.skip(i as int).drop_first() =~= t.skip(i + 1));
                assert(cur.push(t[i as int]) =~= t.subrange(start as int, i + 1));
            }
            i = i + 1;
        }
    }
    proof {
        assert(entry_views(entries@) =~= listing_entries(t)) by {
            assert forall|j: int| 0 <= j < done.len() implies entry_views(entries@)[j]
                == listing_entries(t)[j] by {
                assert(Some(entries@[j]@) == parse_line(done[j]));
            }
        }
    }
    Ok(entries)
}

impl CacheEntry for ClipHistEntry {
    open spec fn key_view(&self) -> Seq<char> {
        self@.key()
    }

    fn id(&self) -> (r: String) {
        file_name(self)
    }
}

/// `<id>.<content_type>` for an image, the id for a text.
fn file_name(e: &ClipHistEntry) -> (r: String)
    ensures
        r@ == e@.file_name(),
{
    match e {
        ClipHistEntry::Text { id, .. } => id.clone(),
        ClipHistEntry::Image { id, content_type } => {
            let mut s = id.clone();
            s.append(".");
            s.append(content_type.as_str());
            proof {
                reveal_strlit(".");
            }
            s
        },
    }
}

impl ClipHistEntry {
    /// The identity that the store knows the entry by.
    pub fn store_id(&self) -> (r: String)
        ensures
            r@ == self@.id(),
    {
        match self {
            ClipHistEntry::Text { id, .. } => id.clone(),
            ClipHistEntry::Image { id, .. } => id.clone(),
        }
    }

    /// The file name `<id>.<content_type>` of an image, or the id of a text.
    pub fn file_name(&self) -> (r: String)
        ensures
            r@ == self@.file_name(),
    {
        file_name(self)
    }

    /// Whether the entry is an image.
    pub fn is_image(&self) -> (r: bool)
        ensures
            r == self@.is_image(),
    {
        match self {
            ClipHistEntry::Text { .. } => false,
            ClipHistEntry::Image { .. } => true,
        }
    }
}

/// The clipboard-history store, reached through its command-line program.
pub struct ClipHist {
    bin: String,
}

/// A store reached through the program `bin`.
pub fn new(bin: &str) -> (r: ClipHist)
    ensures
        r.program() == bin@,
{
    ClipHist { bin: bin.to_owned() }
}

impl ClipHist {
    /// The store's program.
    pub closed spec fn program(&self) -> Seq<char> {
        self.bin@
    }

    /// The store's program.
    pub fn bin(&self) -> (r: &String)
        ensures
            r@ == self.program(),
    {
        &self.bin
    }

    /// What the store's `delete` command reads on its input to remove the
    /// entry `id`: `<id>\t`.
    pub fn delete_request(id: &str) -> (r: String)
        ensures
            r@ == id@ + seq!['\t'],
    {
        let mut s = id.to_owned();
        s.append("\t");
        proof {
            reveal_strlit("\t");
        }
        s
    }

    /// The argument of the store's `decode` command that fetches the payload
    /// of the entry `id`: `<id>\t\n`.
    pub fn decode_request(id: &str) -> (r: String)
        ensures
            r@ == id@ + seq!['\t', '\n'],
    {
        let mut s = id.to_owned();
        s.append("\t\n");
        proof {
            reveal_strlit("\t\n");
        }
        s
    }
}

} // verus!
