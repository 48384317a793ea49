//! Where each entry of a source archive lands: archives of this kind wrap
//! everything in one top-level directory, which extraction strips.

use vstd::prelude::*;

use crate::layout::{child, is_within, join_path};
use crate::text::{find_char, has_char, rfind_char};

verus! {

/// Whether `k` is the position of the first `c` in `s`.
pub open spec fn is_first(s: Seq<char>, c: char, k: int) -> bool {
    0 <= k < s.len() && s[k] == c && !has_char(s.subrange(0, k), c)
}

/// Whether `k` is the position of the last `c` in `s`.
pub open spec fn is_last(s: Seq<char>, c: char, k: int) -> bool {
    0 <= k < s.len() && s[k] == c && !has_char(s.subrange(k + 1, s.len() as int), c)
}

/// An entry's path with its first component taken off: what follows the first
/// `/`, or nothing when there is none.
pub open spec fn stripped(p: Seq<char>) -> Seq<char> {
    if has_char(p, '/') {
        let k = choose|k: int| is_first(p, '/', k);
        p.subrange(k + 1, p.len() as int)
    } else {
        Seq::empty()
    }
}

/// The directory part of a path that holds a `/`.
pub open spec fn parent(p: Seq<char>) -> Seq<char> {
    let k = choose|k: int| is_last(p, '/', k);
    p.subrange(0, k)
}

proof fn lemma_first_unique(s: Seq<char>, c: char, k1: int, k2: int)
    requires
        is_first(s, c, k1),
        is_first(s, c, k2),
    ensures
        k1 == k2,
{
    if k1 < k2 {
        assert(s.subrange(0, k2)[k1] == c);
    } else if k2 < k1 {
        assert(s.subrange(0, k1)[k2] == c);
    }
}

proof fn lemma_last_unique(s: Seq<char>, c: char, k1: int, k2: int)
    requires
        is_last(s, c, k1),
        is_last(s, c, k2),
    ensures
        k1 == k2,
{
    if k1 < k2 {
        assert(s.subrange(k1 + 1, s.len() as int)[k2 - k1 - 1] == c);
    } else if k2 < k1 {
        assert(s.subrange(k2 + 1, s.len() as int)[k1 - k2 - 1] == c);
    }
}

/// Where an archive entry is written: the file, and the directory to create first.
#[derive(Debug)]
pub struct Placement {
    pub dir: String,
    pub file: String,
}

/// Places an archive entry under `dest`: `None` for directory entries and for
/// the wrapper directory itself, else the file at `dest/<stripped path>`.
pub fn place_entry(dest: &str, entry: &str, is_dir: bool) -> (r: Option<Placement>)
    ensures
        is_dir || stripped(entry@).len() == 0 ==> r is None,
        !is_dir && stripped(entry@).len() > 0 ==> (r matches Some(pl) && pl.file@ == child(dest@, stripped(entry@))
            && pl.dir@ == parent(child(dest@, stripped(entry@)))),
{
    if is_dir {
        return None;
    }
    match find_char(entry, '/') {
        None => None,
        Some(k) => {
            proof {
                assert(is_first(entry@, '/', k as int));
                let j = choose|j: int| is_first(entry@, '/', j);
                lemma_first_unique(entry@, '/', j, k as int);
            }
            let n = entry.unicode_len();
            if k + 1 == n {
                return None;
            }
            let rest = entry.substring_char(k + 1, n);
            let file = join_path(dest, rest);
            match rfind_char(file.as_str(), '/') {
                Some(m) => {
                    proof {
                        assert(is_last(file@, '/', m as int));
                        let j = choose|j: int| is_last(file@, '/', j);
                        lemma_last_unique(file@, '/', j, m as int);
                    }
                    let dir = String::from_str(file.as_str().substring_char(0, m));
                    Some(Placement { dir, file })
                },
                None => {
                    proof {
                        reveal_strlit("/");
                        assert(file@[dest@.len() as int] == '/');
                    }
                    None
                },
            }
        },
    }
}

/// Stripping takes exactly the wrapper directory `w` off: an entry `w/rest`
/// lands at `rest`, whatever `rest` holds.
pub proof fn lemma_strip_wrapper(w: Seq<char>, rest: Seq<char>)
    requires
        !has_char(w, '/'),
    ensures
        stripped(w + "/"@ + rest) == rest,
{
    reveal_strlit("/");
    let p = w + "/"@ + rest;
    assert(p[w.len() as int] == '/');
    assert(p.subrange(0, w.len() as int) =~= w);
    assert(is_first(p, '/', w.len() as int));
    let k = choose|k: int| is_first(p, '/', k);
    lemma_first_unique(p, '/', k, w.len() as int);
    assert(p.subrange(w.len() + 1int, p.len() as int) =~= rest);
}

/// Nothing lands at the wrapper's own place: when `rest` does not itself begin
/// with the component `w`, the entry `w/rest` is placed neither at `dest/w`
/// nor under it.
pub proof fn lemma_nothing_at_wrapper(dest: Seq<char>, w: Seq<char>, rest: Seq<char>)
    requires
        !has_char(w, '/'),
        !is_within(rest, w),
    ensures
        !is_within(child(dest, stripped(w + "/"@ + rest)), child(dest, w)),
{
    lemma_strip_wrapper(w, rest);
    reveal_strlit("/");
    let p = dest + "/"@;
    let n = p.len() as int;
    let a = child(dest, rest);
    let b = child(dest, w);
    assert(a =~= p + rest);
    assert(b =~= p + w);
    if a == b {
        assert(rest =~= a.subrange(n, a.len() as int));
        assert(w =~= b.subrange(n, b.len() as int));
    }
    if a.len() > b.len() && a.subrange(0, b.len() + 1int) == b + "/"@ {
        let m = n + w.len() + 1;
        assert(rest.subrange(0, w.len() + 1int) =~= a.subrange(n, m));
        assert(a.subrange(n, m) =~= a.subrange(0, b.len() + 1int).subrange(n, m));
        assert((b + "/"@).subrange(n, m) =~= w + "/"@);
        assert(rest.len() > w.len());
    }
}

} // verus!
