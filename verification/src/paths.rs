//! Path structure: splitting a path into its segments, stripping the watch
//! root (the leading mount/root markers) off an absolute path, and resolving
//! the instance a path belongs to. All functions are total over character
//! sequences; a segment is a maximal run of characters free of `/`.

use vstd::prelude::*;

verus! {

/// The number of leading characters of `s` that belong to its first segment:
/// zero when `s` is empty or opens with a separator.
pub open spec fn segment_end(s: Seq<char>) -> nat
    decreases s.len(),
{
    if s.len() == 0 || s[0] == '/' {
        0
    } else {
        (1 + segment_end(s.drop_first())) as nat
    }
}

/// The first segment never reaches past the end of the sequence.
pub proof fn lemma_segment_end_le(s: Seq<char>)
    ensures
        segment_end(s) <= s.len(),
    decreases s.len(),
{
    if s.len() == 0 || s[0] == '/' {
    } else {
        lemma_segment_end_le(s.drop_first());
    }
}

/// Pins `segment_end` down from its defining property: `j` marks the first
/// separator (or the end of the sequence).
pub proof fn lemma_segment_end_at(s: Seq<char>, j: int)
    requires
        0 <= j <= s.len(),
        forall|m: int| 0 <= m < j ==> s[m] != '/',
        j == s.len() || s[j] == '/',
    ensures
        segment_end(s) == j,
    decreases j,
{
    if j == 0 {
    } else {
        assert(s[0] != '/');
        assert forall|m: int| 0 <= m < j - 1 implies s.drop_first()[m] != '/' by {
            assert(s.drop_first()[m] == s[m + 1]);
        }
        lemma_segment_end_at(s.drop_first(), j - 1);
    }
}

/// The segments of a path, in order, with empty segments (runs of `/`)
/// dropped. `"/root/containers/vm1"` has segments `root`, `containers`,
/// `vm1`.
pub open spec fn path_segments(s: Seq<char>) -> Seq<Seq<char>>
    decreases s.len(),
    via path_segments_decreases
{
    if s.len() == 0 {
        Seq::empty()
    } else if s[0] == '/' {
        path_segments(s.drop_first())
    } else {
        seq![s.take(segment_end(s) as int)] + path_segments(s.skip(segment_end(s) as int))
    }
}

#[via_fn]
proof fn path_segments_decreases(s: Seq<char>) {
    lemma_segment_end_le(s);
}

/// Rebuilds a path from segments, placing a separator before each one:
/// `[a, b]` becomes `/a/b`, and no segments become the empty sequence.
pub open spec fn join_segments(segs: Seq<Seq<char>>) -> Seq<char>
    decreases segs.len(),
{
    if segs.len() == 0 {
        Seq::empty()
    } else {
        seq!['/'] + segs[0] + join_segments(segs.drop_first())
    }
}

/// Joining after a final segment appends a separator and that segment.
pub proof fn lemma_join_segments_push(segs: Seq<Seq<char>>, last: Seq<char>)
    ensures
        join_segments(segs.push(last)) == join_segments(segs) + seq!['/'] + last,
    decreases segs.len(),
{
    if segs.len() == 0 {
        assert(segs.push(last)[0] == last);
        assert(segs.push(last).drop_first() =~= Seq::<Seq<char>>::empty());
        assert(join_segments(Seq::<Seq<char>>::empty()) == Seq::<char>::empty());
        assert(join_segments(segs.push(last)) =~= join_segments(segs) + seq!['/'] + last);
    } else {
        assert(segs.push(last).drop_first() =~= segs.drop_first().push(last));
        lemma_join_segments_push(segs.drop_first(), last);
        assert(segs.push(last)[0] == segs[0]);
        assert(join_segments(segs.push(last)) =~= join_segments(segs) + seq!['/'] + last);
    }
}

/// The path made relative to the watched root: the root marker and the first
/// segment are dropped and the remainder is rebuilt from `/`. A path with at
/// most one segment strips to `/` itself.
pub open spec fn spec_strip_root(p: Seq<char>) -> Seq<char> {
    let segs = path_segments(p);
    if segs.len() <= 1 {
        seq!['/']
    } else {
        join_segments(segs.drop_first())
    }
}

/// Whether `pre` is a literal prefix of `s`.
pub open spec fn spec_starts_with(s: Seq<char>, pre: Seq<char>) -> bool {
    pre.len() <= s.len() && s.subrange(0, pre.len() as int) == pre
}

/// Character-for-character string equality.
pub fn str_eq(a: &str, b: &str) -> (r: bool)
    ensures
        r == (a@ == b@),
{
    let n = a.unicode_len();
    if n != b.unicode_len() {
        return false;
    }
    let mut i: usize = 0;
    while i < n
        invariant
            0 <= i <= n,
            n == a@.len(),
            n == b@.len(),
            forall|m: int| 0 <= m < i ==> a@[m] == b@[m],
        decreases n - i,
    {
        if a.get_char(i) != b.get_char(i) {
            return false;
        }
        i += 1;
    }
    proof {
        assert(a@ =~= b@);
    }
    true
}

/// Whether `pre` is a literal prefix of `s`, character for character.
pub fn str_starts_with(s: &str, pre: &str) -> (r: bool)
    ensures
        r == spec_starts_with(s@, pre@),
{
    let k = pre.unicode_len();
    if k > s.unicode_len() {
        return false;
    }
    let mut i: usize = 0;
    while i < k
        invariant
            0 <= i <= k,
            k == pre@.len(),
            k <= s@.len(),
            forall|m: int| 0 <= m < i ==> s@[m] == pre@[m],
        decreases k - i,
    {
        if s.get_char(i) != pre.get_char(i) {
            proof {
                assert(s@.subrange(0, k as int)[i as int] != pre@[i as int]);
            }
            return false;
        }
        i += 1;
    }
    proof {
        assert(s@.subrange(0, k as int) =~= pre@);
    }
    true
}

/// Splits a path into its segments.
pub fn split_path(s: &str) -> (segs: Vec<String>)
    ensures
        segs.deep_view() == path_segments(s@),
{
    let n = s.unicode_len();
    let mut segs: Vec<String> = Vec::new();
    let mut i: usize = 0;
    proof {
        assert(s@.skip(0) =~= s@);
        assert(segs.deep_view() + path_segments(s@) =~= path_segments(s@));
    }
    while i < n
        invariant
            0 <= i <= n,
            n == s@.len(),
            path_segments(s@) == segs.deep_view() + path_segments(s@.skip(i as int)),
        decreases n - i,
    {
        if s.get_char(i) == '/' {
            proof {
                let t = s@.skip(i as int);
                assert(t[0] == s@[i as int]);
                assert(t.drop_first() =~= s@.skip(i as int + 1));
            }
            i += 1;
        } else {
            let start = i;
            let mut j = i + 1;
            while j < n && s.get_char(j) != '/'
                invariant
                    n == s@.len(),
                    start < j <= n,
                    start < n,
                    s@[start as int] != '/',
                    forall|m: int| start <= m < j ==> s@[m] != '/',
                decreases n - j,
            {
                j += 1;
            }
            let seg = s.substring_char(start, j);
            let ghost old_dv = segs.deep_view();
            segs.push(seg.to_owned());
            proof {
                let t = s@.skip(start as int);
                assert forall|m: int| 0 <= m < j - start implies t[m] != '/' by {
                    assert(t[m] == s@[start + m]);
                }
                if j < n {
                    assert(t[j - start] == s@[j as int]);
                }
                lemma_segment_end_at(t, j - start);
                assert(t.take(j - start) =~= s@.subrange(start as int, j as int));
                assert(t.skip(j - start) =~= s@.skip(j as int));
                assert(segs.deep_view() =~= old_dv.push(s@.subrange(start as int, j as int)));
                assert(old_dv + path_segments(t) =~= segs.deep_view() + path_segments(
                    s@.skip(j as int),
                ));
            }
            i = j;
        }
    }
    proof {
        assert(s@.skip(i as int) =~= Seq::<char>::empty());
        assert(path_segments(Seq::<char>::empty()) =~= Seq::<Seq<char>>::empty());
        assert(segs.deep_view() + Seq::<Seq<char>>::empty() =~= segs.deep_view());
    }
    segs
}

/// Makes an absolute path relative to the watched root: drops the root
/// marker and the first segment, then rebuilds the remainder from `/`.
pub fn strip_root(path: &str) -> (r: String)
    ensures
        r@ == spec_strip_root(path@),
{
    let segs = split_path(path);
    let mut out = String::new();
    if segs.len() <= 1 {
        out.append("/");
        proof {
            reveal_strlit("/");
            assert(out@ =~= seq!['/']);
        }
        return out;
    }
    let mut k: usize = 1;
    proof {
        let dv = segs.deep_view();
        assert(dv.subrange(1, 1) =~= Seq::<Seq<char>>::empty());
        assert(join_segments(Seq::<Seq<char>>::empty()) == Seq::<char>::empty());
    }
    while k < segs.len()
        invariant
            1 <= k <= segs@.len(),
            segs.deep_view() == path_segments(path@),
            out@ == join_segments(segs.deep_view().subrange(1, k as int)),
        decreases segs@.len() - k,
    {
        out.append("/");
        out.append(segs[k].as_str());
        proof {
            let dv = segs.deep_view();
            reveal_strlit("/");
            assert(dv.subrange(1, k as int).push(dv[k as int]) =~= dv.subrange(1, k + 1));
            lemma_join_segments_push(dv.subrange(1, k as int), dv[k as int]);
            assert(out@ =~= join_segments(dv.subrange(1, k + 1)));
        }
        k += 1;
    }
    proof {
        let dv = segs.deep_view();
        assert(dv.subrange(1, dv.len() as int) =~= dv.drop_first());
    }
    out
}

/// The segment names under which container and virtual-machine state lives.
pub open spec fn is_instance_root(seg: Seq<char>) -> bool {
    seg == "containers"@ || seg == "virtual-machine"@
}

/// The instance named by a segment sequence: the segment that follows the
/// first container/VM root, when both exist.
pub open spec fn spec_instance_from(segs: Seq<Seq<char>>) -> Option<Seq<char>>
    decreases segs.len(),
{
    if segs.len() == 0 {
        None
    } else if is_instance_root(segs[0]) {
        if segs.len() >= 2 {
            Some(segs[1])
        } else {
            None
        }
    } else {
        spec_instance_from(segs.drop_first())
    }
}

/// The instance a path belongs to.
pub open spec fn spec_instance_name(p: Seq<char>) -> Option<Seq<char>> {
    spec_instance_from(path_segments(p))
}

/// Resolves the instance a path belongs to: the first path segment after a
/// known container/VM root, or `None` when the path has no such root or
/// nothing follows it.
pub fn instance_name_of(path: &str) -> (r: Option<String>)
    ensures
        r.deep_view() == spec_instance_name(path@),
{
    let segs = split_path(path);
    let mut k: usize = 0;
    proof {
        assert(segs.deep_view().skip(0) =~= segs.deep_view());
    }
    while k < segs.len()
        invariant
            0 <= k <= segs@.len(),
            segs.deep_view() == path_segments(path@),
            spec_instance_name(path@) == spec_instance_from(segs.deep_view().skip(k as int)),
        decreases segs@.len() - k,
    {
        proof {
            assert(segs.deep_view().skip(k as int)[0] == segs.deep_view()[k as int]);
        }
        let is_root = str_eq(segs[k].as_str(), "containers") || str_eq(
            segs[k].as_str(),
            "virtual-machine",
        );
        if is_root {
            if k + 1 < segs.len() {
                proof {
                    assert(segs.deep_view().skip(k as int)[1] == segs.deep_view()[k + 1]);
                }
                return Some(segs[k + 1].clone());
            } else {
                return None;
            }
        }
        proof {
            assert(segs.deep_view().skip(k as int).drop_first() =~= segs.deep_view().skip(
                k + 1,
            ));
        }
        k += 1;
    }
    proof {
        assert(segs.deep_view().skip(k as int) =~= Seq::<Seq<char>>::empty());
    }
    None
}

} // verus!
