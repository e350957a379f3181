//! Splitting request paths into their components.
use crate::text::chars_of;
use vstd::prelude::*;

verus! {

/// The current component `cur` as a list of components (none if empty).
pub open spec fn flush(cur: Seq<char>) -> Seq<Seq<char>> {
    if cur.len() > 0 {
        seq![cur]
    } else {
        Seq::empty()
    }
}

/// The non-empty components of `s` split at `/`, where `cur` is the component
/// read so far.
pub open spec fn segments_from(s: Seq<char>, cur: Seq<char>) -> Seq<Seq<char>>
    decreases s.len(),
{
    if s.len() == 0 {
        flush(cur)
    } else if s[0] == '/' {
        flush(cur) + segments_from(s.skip(1), Seq::empty())
    } else {
        segments_from(s.skip(1), cur.push(s[0]))
    }
}

/// The non-empty components of a path split at `/`.
pub open spec fn path_segments(path: Seq<char>) -> Seq<Seq<char>> {
    segments_from(path, Seq::empty())
}

/// The views of a vector of string slices.
pub open spec fn str_views(v: Seq<&str>) -> Seq<Seq<char>> {
    v.map_values(|s: &str| s@)
}

/// Removes empty elements from a path, which is important due to double
/// slashes. This returns a vector of the path's components.
pub fn get_path_slice(path: &str) -> (r: Vec<&str>)
    ensures
        str_views(r@) == path_segments(path@),
{
    let cs = chars_of(path);
    let mut out: Vec<&str> = Vec::new();
    let mut start: usize = 0;
    let mut i: usize = 0;
    assert(cs@.skip(0) == cs@);
    assert(cs@.subrange(0, 0) == Seq::<char>::empty());
    assert(str_views(out@) == Seq::<Seq<char>>::empty());
    assert(str_views(out@) + path_segments(path@) == path_segments(path@));
    while i < cs.len()
        invariant
            cs@ == path@,
            start <= i <= cs.len(),
            forall|k: int| start <= k < i ==> cs@[k] != '/',
            str_views(out@) + segments_from(cs@.skip(i as int), cs@.subrange(start as int, i as int))
                == path_segments(path@),
        decreases cs.len() - i,
    {
        let ghost rest = cs@.skip(i as int);
        let ghost cur = cs@.subrange(start as int, i as int);
        assert(rest[0] == cs@[i as int]);
        assert(rest.skip(1) == cs@.skip(i + 1));
        if cs[i] == '/' {
            let ghost before = str_views(out@);
            if i > start {
                let seg = path.substring_char(start, i);
                out.push(seg);
                assert(str_views(out@) == before + flush(cur));
            } else {
                assert(flush(cur) == Seq::<Seq<char>>::empty());
                assert(before + flush(cur) == before);
            }
            assert(cs@.subrange(i + 1, i + 1) == Seq::<char>::empty());
            assert(str_views(out@) + segments_from(cs@.skip(i + 1), Seq::empty()) == before + (flush(
                cur,
            ) + segments_from(rest.skip(1), Seq::empty())));
            start = i + 1;
        } else {
            assert(cs@.subrange(start as int, i + 1) == cur.push(cs@[i as int]));
        }
        i = i + 1;
    }
    let ghost cur = cs@.subrange(start as int, i as int);
    assert(cs@.skip(i as int) == Seq::<char>::empty());
    if i > start {
        let seg = path.substring_char(start, i);
        let ghost before = str_views(out@);
        out.push(seg);
        assert(str_views(out@) == before + flush(cur));
    } else {
        assert(str_views(out@) + flush(cur) == str_views(out@));
    }
    out
}

/// The components of a path are never empty and never hold a `/`.
pub proof fn law_path_segments_nonempty(path: Seq<char>)
    ensures
        forall|i: int|
            0 <= i < path_segments(path).len() ==> (#[trigger] path_segments(path)[i]).len() > 0
                && !path_segments(path)[i].contains('/'),
{
    lemma_segments_from(path, Seq::empty());
}

proof fn lemma_segments_from(s: Seq<char>, cur: Seq<char>)
    requires
        !cur.contains('/'),
    ensures
        forall|i: int|
            0 <= i < segments_from(s, cur).len() ==> (#[trigger] segments_from(s, cur)[i]).len() > 0
                && !segments_from(s, cur)[i].contains('/'),
    decreases s.len(),
{
    if s.len() == 0 {
        assert(segments_from(s, cur) == flush(cur));
    } else {
        if s[0] == '/' {
            assert(segments_from(s, cur) == flush(cur) + segments_from(s.skip(1), Seq::empty()));
            lemma_segments_from(s.skip(1), Seq::empty());
            let f = flush(cur);
            let r = segments_from(s.skip(1), Seq::empty());
            assert forall|i: int| 0 <= i < (f + r).len() implies (#[trigger] (f + r)[i]).len() > 0 && !(f
                + r)[i].contains('/') by {
                if i >= f.len() {
                    assert((f + r)[i] == r[i - f.len()]);
                }
            }
        } else {
            assert(!cur.push(s[0]).contains('/')) by {
                if cur.push(s[0]).contains('/') {
                    let j = choose|j: int| 0 <= j < cur.push(s[0]).len() && cur.push(s[0])[j] == '/';
                    if j < cur.len() {
                        assert(cur[j] == '/');
                    }
                }
            }
            lemma_segments_from(s.skip(1), cur.push(s[0]));
            assert(segments_from(s, cur) == segments_from(s.skip(1), cur.push(s[0])));
        }
    }
}

} // verus!
