//! Page templates: a text that markers cut into segments. All segments but
//! the last, joined, are the template's prefix, and the last is its suffix.
//! A template without a marker is all prefix.

use vstd::prelude::*;
use vstd::std_specs::iter::IteratorSpec;
use vstd::string::*;

verus! {

/// The marker that cuts a template.
pub const MARKER: &'static str = "@@@";

/// A marker starts at index `i` of `s`.
pub open spec fn marker_at(s: Seq<char>, i: int) -> bool {
    &&& 0 <= i
    &&& i + 3 <= s.len()
    &&& s.subrange(i, i + 3) == MARKER@
}

/// Whether a marker starts anywhere in `s`.
pub open spec fn has_marker(s: Seq<char>) -> bool {
    exists|i: int| marker_at(s, i)
}

/// A marker starts at `i`, and none starts further left.
pub open spec fn is_first_marker(s: Seq<char>, i: int) -> bool {
    &&& marker_at(s, i)
    &&& forall|j: int| 0 <= j < i ==> !marker_at(s, j)
}

/// Where the leftmost marker of `s` starts. Without a marker in `s` the
/// value is arbitrary.
pub open spec fn first_marker(s: Seq<char>) -> int {
    choose|i: int| is_first_marker(s, i)
}

/// The segments that the markers cut `s` into, read from the left: each
/// marker found ends a segment and is dropped, and the search goes on behind
/// it, so markers never overlap. A text without a marker is one segment.
pub open spec fn segments(s: Seq<char>) -> Seq<Seq<char>>
    decreases s.len(),
{
    let i = first_marker(s);
    if marker_at(s, i) {
        seq![s.take(i)] + segments(s.skip(i + 3))
    } else {
        seq![s]
    }
}

/// Segments put together again with a marker between each two.
pub open spec fn rejoined(parts: Seq<Seq<char>>) -> Seq<char>
    decreases parts.len(),
{
    if parts.len() == 0 {
        Seq::empty()
    } else if parts.len() == 1 {
        parts[0]
    } else {
        parts[0] + MARKER@ + rejoined(parts.drop_first())
    }
}

/// All segments of a text but the last, joined with nothing in between.
pub open spec fn joined_front(s: Seq<char>) -> Seq<char> {
    segments(s).drop_last().flatten()
}

/// The last segment of a text.
pub open spec fn last_segment(s: Seq<char>) -> Seq<char> {
    segments(s).last()
}

/// What of a template goes before the task blocks: all its segments but the
/// last, joined, so that the markers between them are lost. A template
/// without a marker goes there whole.
pub open spec fn template_prefix(s: Seq<char>) -> Seq<char> {
    if has_marker(s) {
        joined_front(s)
    } else {
        s
    }
}

/// What of a template goes behind the task blocks: its last segment, the
/// text behind the last marker. For a template without a marker that part is
/// empty.
pub open spec fn template_suffix(s: Seq<char>) -> Seq<char> {
    if has_marker(s) {
        last_segment(s)
    } else {
        Seq::empty()
    }
}

/// A marker starts at `i` exactly where the three characters from `i` on are
/// all `@`.
pub proof fn lemma_marker_chars(s: Seq<char>, i: int)
    ensures
        marker_at(s, i) <==> (0 <= i && i + 3 <= s.len() && s[i] == '@' && s[i + 1] == '@' && s[i
            + 2] == '@'),
{
    reveal_strlit("@@@");
    if 0 <= i && i + 3 <= s.len() {
        let w = s.subrange(i, i + 3);
        assert(w[0] == s[i] && w[1] == s[i + 1] && w[2] == s[i + 2]);
        if s[i] == '@' && s[i + 1] == '@' && s[i + 2] == '@' {
            assert(w =~= MARKER@);
        }
    }
}

/// A marker with none to its left is the first marker.
pub proof fn lemma_first_marker_is(s: Seq<char>, k: int)
    requires
        is_first_marker(s, k),
    ensures
        first_marker(s) == k,
{
    let i = first_marker(s);
    assert(is_first_marker(s, i));
    if i < k {
        assert(!marker_at(s, i));
    } else if k < i {
        assert(!marker_at(s, k));
    }
}

/// Every text has at least one segment.
pub proof fn lemma_segments_nonempty(s: Seq<char>)
    ensures
        segments(s).len() >= 1,
    decreases s.len(),
{
    let i = first_marker(s);
    if marker_at(s, i) {
        lemma_segments_nonempty(s.skip(i + 3));
    }
}

/// A text without a marker is a single segment.
pub proof fn lemma_segments_without_marker(s: Seq<char>)
    requires
        !has_marker(s),
    ensures
        segments(s) == seq![s],
        joined_front(s) == Seq::<char>::empty(),
        last_segment(s) == s,
{
    assert(!marker_at(s, first_marker(s)));
    assert(segments(s) =~= seq![s]);
    assert(segments(s).drop_last() =~= Seq::<Seq<char>>::empty());
}

/// At the first marker a text falls into the segment before it and the rest
/// behind it, which is cut in turn.
pub proof fn lemma_segments_at_first_marker(s: Seq<char>, k: int)
    requires
        is_first_marker(s, k),
    ensures
        segments(s) == seq![s.take(k)] + segments(s.skip(k + 3)),
        joined_front(s) == s.take(k) + joined_front(s.skip(k + 3)),
        last_segment(s) == last_segment(s.skip(k + 3)),
{
    lemma_first_marker_is(s, k);
    let rest = segments(s.skip(k + 3));
    lemma_segments_nonempty(s.skip(k + 3));
    let all = seq![s.take(k)] + rest;
    assert(segments(s) == all);
    let front = all.drop_last();
    assert(front.first() == s.take(k));
    assert(front.drop_first() =~= rest.drop_last());
    assert(all.last() == rest.last());
}

/// A template without a marker is all prefix: the blocks come behind it.
pub proof fn lemma_split_without_marker(s: Seq<char>)
    requires
        !has_marker(s),
    ensures
        template_prefix(s) == s,
        template_suffix(s) == Seq::<char>::empty(),
{
}

/// A template that opens with a text in which no marker starts, not even
/// one that runs on into the marker behind it, is cut at that marker: the
/// text opens the prefix, and what stands behind the marker is cut in turn.
/// If no marker is left there, the text is the whole prefix and the rest the
/// suffix.
pub proof fn lemma_split_at_marker(before: Seq<char>, behind: Seq<char>)
    requires
        !has_marker(before + MARKER@.take(2)),
    ensures
        template_prefix(before + MARKER@ + behind) == before + joined_front(behind),
        template_suffix(before + MARKER@ + behind) == last_segment(behind),
        !has_marker(behind) ==> template_prefix(before + MARKER@ + behind) == before
            && template_suffix(before + MARKER@ + behind) == behind,
{
    reveal_strlit("@@@");
    let s = before + MARKER@ + behind;
    let k = before.len() as int;
    lemma_marker_chars(s, k);
    assert forall|j: int| 0 <= j < k implies !marker_at(s, j) by {
        lemma_marker_chars(s, j);
        lemma_marker_chars(before + MARKER@.take(2), j);
        assert(!marker_at(before + MARKER@.take(2), j));
    }
    assert(is_first_marker(s, k));
    lemma_segments_at_first_marker(s, k);
    assert(s.take(k) =~= before);
    assert(s.skip(k + 3) =~= behind);
    if !has_marker(behind) {
        lemma_segments_without_marker(behind);
        assert(before + Seq::<char>::empty() =~= before);
    }
}

/// Where a text holds a marker at all, it holds a first one, and
/// `first_marker` is where that one starts.
pub proof fn lemma_first_marker_exists(s: Seq<char>, j: int)
    requires
        marker_at(s, j),
    ensures
        is_first_marker(s, first_marker(s)),
        first_marker(s) <= j,
    decreases j,
{
    if forall|k: int| 0 <= k < j ==> !marker_at(s, k) {
        assert(is_first_marker(s, j));
        lemma_first_marker_is(s, j);
    } else {
        let k = choose|k: int| 0 <= k < j && marker_at(s, k);
        lemma_first_marker_exists(s, k);
    }
}

/// Cutting loses nothing but the markers: the segments of a text, put
/// together again with a marker between each two, are the text.
pub proof fn lemma_segments_rejoin(s: Seq<char>)
    ensures
        rejoined(segments(s)) == s,
    decreases s.len(),
{
    let i = first_marker(s);
    if marker_at(s, i) {
        let rest = s.skip(i + 3);
        lemma_segments_rejoin(rest);
        lemma_segments_nonempty(rest);
        let parts = seq![s.take(i)] + segments(rest);
        assert(parts.drop_first() =~= segments(rest));
        assert(s.take(i) + MARKER@ + rest =~= s);
    }
}

/// No marker is left inside a segment.
pub proof fn lemma_segments_hold_no_marker(s: Seq<char>, n: int)
    requires
        0 <= n < segments(s).len(),
    ensures
        !has_marker(segments(s)[n]),
    decreases s.len(),
{
    let i = first_marker(s);
    if marker_at(s, i) {
        if n == 0 {
            assert forall|j: int| !marker_at(s.take(i), j) by {
                if marker_at(s.take(i), j) {
                    assert(s.take(i).subrange(j, j + 3) =~= s.subrange(j, j + 3));
                    assert(marker_at(s, j));
                    lemma_first_marker_exists(s, i);
                }
            }
        } else {
            lemma_segments_hold_no_marker(s.skip(i + 3), n - 1);
        }
    } else {
        assert forall|j: int| !marker_at(s, j) by {
            if marker_at(s, j) {
                lemma_first_marker_exists(s, j);
            }
        }
    }
}

/// No marker is left in the suffix of a template.
pub proof fn lemma_suffix_has_no_marker(s: Seq<char>)
    ensures
        !has_marker(template_suffix(s)),
{
    lemma_segments_nonempty(s);
    lemma_segments_hold_no_marker(s, segments(s).len() - 1);
}

/// `n` characters `@` in a row.
spec fn at_signs(n: nat) -> Seq<char> {
    Seq::new(n, |k: int| '@')
}

/// Appends up to two `@` characters.
fn push_at_signs(out: &mut String, n: u8)
    requires
        n <= 2,
    ensures
        final(out)@ == old(out)@ + at_signs(n as nat),
{
    if n >= 1 {
        out.push('@');
    }
    if n == 2 {
        out.push('@');
    }
    assert(out@ =~= old(out)@ + at_signs(n as nat));
}

/// Cuts a template into its prefix and its suffix.
pub fn split_template(template: &str) -> (parts: (String, String))
    ensures
        parts.0@ == template_prefix(template@),
        parts.1@ == template_suffix(template@),
{
    broadcast use vstd::string::group_string_axioms;

    let ghost s = template@;
    // the segments closed so far, joined
    let mut front = String::new();
    // the segment being read, but for the pending `@` characters
    let mut current = String::new();
    // `@` characters read at the end of the segment that may yet grow into a marker
    let mut run: u8 = 0;
    let mut found = false;
    let ghost mut pos: int = 0;
    let ghost mut start: int = 0;
    let ghost mut seen_at: int = 0;
    let mut it = template.chars();
    proof {
        assert(s.skip(0) =~= s);
        assert(front@ + joined_front(s.skip(0)) =~= joined_front(s));
        assert(s.subrange(0, 0) =~= current@);
    }
    loop
        invariant
            s == template@,
            0 <= start <= pos - run,
            pos <= s.len(),
            run <= 2,
            it.remaining() == s.skip(pos),
            current@ == s.subrange(start, pos - run),
            forall|k: int| pos - run <= k < pos ==> s[k] == '@',
            forall|j: int| start <= j < pos - run ==> !marker_at(s, j),
            joined_front(s) == front@ + joined_front(s.skip(start)),
            last_segment(s) == last_segment(s.skip(start)),
            found ==> marker_at(s, seen_at),
            !found ==> start == 0,
        ensures
            pos == s.len(),
        decreases s.len() - pos,
    {
        match it.next() {
            Some(c) => {
                proof {
                    assert(c == s[pos]);
                    assert(s.skip(pos).drop_first() =~= s.skip(pos + 1));
                }
                if c == '@' {
                    if run == 2 {
                        proof {
                            let p = pos - 2;
                            let t = s.skip(start);
                            lemma_marker_chars(s, p);
                            assert forall|j: int| 0 <= j < p - start implies !marker_at(t, j) by {
                                lemma_marker_chars(t, j);
                                lemma_marker_chars(s, start + j);
                            }
                            lemma_marker_chars(t, p - start);
                            lemma_segments_at_first_marker(t, p - start);
                            assert(t.take(p - start) =~= current@);
                            assert(t.skip(p - start + 3) =~= s.skip(pos + 1));
                            assert(front@ + (current@ + joined_front(s.skip(pos + 1))) =~= (front@
                                + current@) + joined_front(s.skip(pos + 1)));
                            seen_at = p;
                            start = pos + 1;
                            assert(s.subrange(start, start) =~= Seq::<char>::empty());
                        }
                        front.append(current.as_str());
                        current = String::new();
                        run = 0;
                        found = true;
                    } else {
                        run = run + 1;
                    }
                } else {
                    proof {
                        assert forall|j: int| start <= j < pos + 1 implies !marker_at(s, j) by {
                            lemma_marker_chars(s, j);
                        }
                        assert((s.subrange(start, pos - run) + at_signs(run as nat)).push(c)
                            =~= s.subrange(start, pos + 1));
                    }
                    push_at_signs(&mut current, run);
                    current.push(c);
                    run = 0;
                }
                proof {
                    pos = pos + 1;
                }
            },
            None => {
                break ;
            },
        }
    }
    proof {
        let t = s.skip(start);
        assert forall|j: int| !marker_at(t, j) by {
            lemma_marker_chars(t, j);
            lemma_marker_chars(s, start + j);
        }
        lemma_segments_without_marker(t);
        assert(front@ + Seq::<char>::empty() =~= front@);
        assert(s.subrange(start, pos - run) + at_signs(run as nat) =~= t);
        if !found {
            assert(t =~= s);
        }
    }
    push_at_signs(&mut current, run);
    if found {
        (front, current)
    } else {
        (current, String::new())
    }
}

} // verus!
