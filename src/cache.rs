//! The thumbnail cache: a directory holding one file per cached entry, named
//! by the entry's cache key. Reading and writing the directory is left to the
//! caller; this module decides the names and which files are stale.
use vstd::prelude::*;

verus! {

/// An item that can be stored in the cache under a key of its own.
pub trait CacheEntry {
    /// The key, as a sequence of characters.
    spec fn key_view(&self) -> Seq<char>;

    /// The file name under which the item is cached.
    fn id(&self) -> (r: String)
        ensures
            r@ == self.key_view(),
    ;
}

/// A cache rooted at a single directory.
pub struct SimpleCache {
    cache_dir: String,
}

/// The characters of each string, in order.
pub open spec fn views(v: Seq<String>) -> Seq<Seq<char>> {
    v.map_values(|s: String| s@)
}

/// The names in `files` that are not in `keep`, in their order.
pub open spec fn stale(files: Seq<Seq<char>>, keep: Seq<Seq<char>>) -> Seq<Seq<char>> {
    files.filter(|f: Seq<char>| !keep.contains(f))
}

impl SimpleCache {
    /// The root directory of the cache.
    pub closed spec fn dir(&self) -> Seq<char> {
        self.cache_dir@
    }

    /// A cache at `<base>/<hierarchy>`, where `base` is the user's cache root
    /// and `hierarchy` a relative unix-like path.
    pub fn new(base: &str, hierarchy: &str) -> (r: Self)
        ensures
            r.dir() == base@ + seq!['/'] + hierarchy@,
    {
        let mut cache_dir = base.to_owned();
        cache_dir.append("/");
        cache_dir.append(hierarchy);
        proof {
            reveal_strlit("/");
        }
        SimpleCache { cache_dir }
    }

    /// The root directory of the cache.
    pub fn cache_dir(&self) -> (r: String)
        ensures
            r@ == self.dir(),
    {
        self.cache_dir.clone()
    }

    /// The path of the file that holds `id`, whether or not it exists.
    pub fn path(&self, id: &str) -> (r: String)
        ensures
            r@ == self.dir() + seq!['/'] + id@,
    {
        let mut p = self.cache_dir.clone();
        p.append("/");
        p.append(id);
        proof {
            reveal_strlit("/");
        }
        p
    }
}

/// Whether some string of `v` has the characters `s`.
pub fn contains_str(v: &Vec<String>, s: &String) -> (r: bool)
    ensures
        r == views(v@).contains(s@),
{
    let mut i: usize = 0;
    while i < v.len()
        invariant
            i <= v.len(),
            forall|j: int| 0 <= j < i ==> v@[j]@ != s@,
        decreases v.len() - i,
    {
        if v[i] == *s {
            assert(views(v@)[i as int] == s@);
            return true;
        }
        i = i + 1;
    }
    proof {
        if views(v@).contains(s@) {
            let j = choose|j: int| 0 <= j < views(v@).len() && views(v@)[j] == s@;
            assert(v@[j]@ == s@);
        }
    }
    false
}

/// The files of a cache listing that pruning to `keep` deletes: those whose
/// name is not in `keep`, in listing order.
pub fn stale_files(files: &Vec<String>, keep: &Vec<String>) -> (r: Vec<String>)
    ensures
        views(r@) == stale(views(files@), views(keep@)),
{
    let ghost pred = |f: Seq<char>| !views(keep@).contains(f);
    let mut r: Vec<String> = Vec::new();
    let mut i: usize = 0;
    while i < files.len()
        invariant
            i <= files.len(),
            pred == (|f: Seq<char>| !views(keep@).contains(f)),
            views(r@) == views(files@).take(i as int).filter(pred),
        decreases files.len() - i,
    {
        let ghost before = r@;
        let f = &files[i];
        let kept = contains_str(keep, f);
        proof {
            reveal(Seq::filter);
            assert(views(files@).take(i + 1).drop_last() =~= views(files@).take(i as int));
            assert(views(files@).take(i + 1).last() == f@);
        }
        if !kept {
            r.push(f.clone());
            assert(views(r@) =~= views(before).push(f@));
        } else {
            assert(views(r@) =~= views(before));
        }
        i = i + 1;
    }
    assert(views(files@).take(files.len() as int) =~= views(files@));
    r
}

/// Pruning is idempotent: once the stale files of a listing are deleted, a
/// listing of what remains holds no stale file, so pruning again to the same
/// `keep` deletes nothing.
pub proof fn lemma_prune_idempotent(
    files: Seq<Seq<char>>,
    keep: Seq<Seq<char>>,
    remaining: Seq<Seq<char>>,
)
    requires
        remaining.to_set() == files.to_set().difference(stale(files, keep).to_set()),
    ensures
        stale(remaining, keep).len() == 0,
{
    let s = stale(remaining, keep);
    let pred = |f: Seq<char>| !keep.contains(f);
    if s.len() > 0 {
        remaining.lemma_filter_pred(pred, 0);
        let x = s[0];
        assert(remaining.filter(pred).contains(x)) by {
            assert(remaining.filter(pred)[0] == x);
        }
        remaining.lemma_filter_contains_rev(pred, x);
        assert(remaining.to_set().contains(x));
        assert(files.to_set().contains(x));
        let j = choose|j: int| 0 <= j < files.len() && files[j] == x;
        files.lemma_filter_contains(pred, j);
        assert(stale(files, keep).to_set().contains(x));
    }
}

} // verus!
