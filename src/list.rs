//! Comma-separated lists, as written in configuration files.

use vstd::prelude::*;

verus! {

/// Unicode white space, the characters `char::is_whitespace` accepts.
pub open spec fn is_space(c: char) -> bool {
    let u = c as u32;
    (0x9 <= u <= 0xD) || u == 0x20 || u == 0x85 || u == 0xA0 || u == 0x1680 || (0x2000 <= u <= 0x200A)
        || u == 0x2028 || u == 0x2029 || u == 0x202F || u == 0x205F || u == 0x3000
}

fn space(c: char) -> (r: bool)
    ensures
        r == is_space(c),
{
    let u = c as u32;
    (0x9 <= u && u <= 0xD) || u == 0x20 || u == 0x85 || u == 0xA0 || u == 0x1680 || (0x2000 <= u && u <= 0x200A)
        || u == 0x2028 || u == 0x2029 || u == 0x202F || u == 0x205F || u == 0x3000
}

pub open spec fn trim_start(s: Seq<char>) -> Seq<char>
    decreases s.len(),
{
    if s.len() > 0 && is_space(s[0]) { trim_start(s.drop_first()) } else { s }
}

pub open spec fn trim_end(s: Seq<char>) -> Seq<char>
    decreases s.len(),
{
    if s.len() > 0 && is_space(s.last()) { trim_end(s.drop_last()) } else { s }
}

/// The text without leading and trailing white space.
pub open spec fn trimmed(s: Seq<char>) -> Seq<char> {
    trim_end(trim_start(s))
}

/// The pieces between commas: one more than there are commas.
pub open spec fn segments(s: Seq<char>) -> Seq<Seq<char>>
    decreases s.len(),
{
    if s.len() == 0 {
        seq![Seq::empty()]
    } else {
        let prev = segments(s.drop_last());
        if s.last() == ',' {
            prev.push(Seq::empty())
        } else {
            prev.update(prev.len() - 1, prev.last().push(s.last()))
        }
    }
}

pub proof fn lemma_segments_nonempty(s: Seq<char>)
    ensures
        segments(s).len() >= 1,
    decreases s.len(),
{
    if s.len() > 0 {
        lemma_segments_nonempty(s.drop_last());
    }
}

/// The trimmed pieces of the first `n` segments, empty ones left out.
pub open spec fn items_upto(segs: Seq<Seq<char>>, n: int) -> Seq<Seq<char>>
    decreases n,
{
    if n <= 0 {
        Seq::empty()
    } else {
        let prev = items_upto(segs, n - 1);
        let t = trimmed(segs[n - 1]);
        if t.len() == 0 { prev } else { prev.push(t) }
    }
}

/// The non-empty trimmed items of a comma-separated list.
pub open spec fn list_items(s: Seq<char>) -> Seq<Seq<char>> {
    items_upto(segments(s), segments(s).len() as int)
}

fn trim(s: &str) -> (r: String)
    ensures
        r@ == trimmed(s@),
{
    let n = s.unicode_len();
    let mut a: usize = 0;
    assert(s@.skip(0) =~= s@);
    while a < n && space(s.get_char(a))
        invariant
            n == s@.len(),
            a <= n,
            trim_start(s@) == trim_start(s@.skip(a as int)),
        decreases n - a,
    {
        assert(s@.skip(a as int).drop_first() =~= s@.skip(a + 1));
        a = a + 1;
    }
    assert(trim_start(s@) == s@.skip(a as int));
    let mut b: usize = n;
    assert(s@.skip(a as int).subrange(0, (n - a) as int) =~= s@.skip(a as int));
    while b > a && space(s.get_char(b - 1))
        invariant
            n == s@.len(),
            a <= b <= n,
            trimmed(s@) == trim_end(s@.subrange(a as int, b as int)),
        decreases b,
    {
        assert(s@.subrange(a as int, b as int).drop_last() =~= s@.subrange(a as int, b - 1));
        b = b - 1;
    }
    String::from_str(s.substring_char(a, b))
}

/// Splits at commas, trims each item and leaves out the empty ones.
pub fn split_list(text: &str) -> (r: Vec<String>)
    ensures
        r@.map_values(|x: String| x@) == list_items(text@),
{
    let n = text.unicode_len();
    let mut done: Vec<String> = Vec::new();
    let mut start: usize = 0;
    let mut i: usize = 0;
    let ghost mut segs: Seq<Seq<char>> = seq![Seq::empty()];
    assert(text@.subrange(0, 0) =~= Seq::<char>::empty());
    while i < n
        invariant
            n == text@.len(),
            start <= i <= n,
            segs == segments(text@.subrange(0, i as int)),
            segs.len() >= 1,
            segs.last() == text@.subrange(start as int, i as int),
            done@.map_values(|x: String| x@) == items_upto(segs, segs.len() - 1),
        decreases n - i,
    {
        assert(text@.subrange(0, i + 1).drop_last() =~= text@.subrange(0, i as int));
        let c = text.get_char(i);
        if c == ',' {
            let piece = trim(text.substring_char(start, i));
            let ghost before = done@;
            if piece.unicode_len() > 0 {
                done.push(piece);
                assert(done@.map_values(|x: String| x@) =~= before.map_values(|x: String| x@).push(piece@));
            }
            proof {
                let old_segs = segs;
                segs = segs.push(Seq::empty());
                assert(segs[segs.len() - 2] == text@.subrange(start as int, i as int));
                lemma_items_prefix(old_segs, segs, old_segs.len() - 1);
                assert(piece@ == trimmed(segs[segs.len() - 2]));
            }
            start = i + 1;
            assert(text@.subrange(start as int, i + 1) =~= Seq::<char>::empty());
        } else {
            proof {
                let old_segs = segs;
                segs = segs.update(segs.len() - 1, segs.last().push(c));
                assert(text@.subrange(start as int, i + 1) =~= text@.subrange(start as int, i as int).push(c));
                assert(items_upto(segs, segs.len() - 1) == items_upto(old_segs, old_segs.len() - 1)) by {
                    lemma_items_prefix(old_segs, segs, segs.len() - 1);
                }
            }
        }
        i = i + 1;
    }
    assert(text@.subrange(0, n as int) =~= text@);
    let piece = trim(text.substring_char(start, n));
    let ghost before = done@;
    if piece.unicode_len() > 0 {
        done.push(piece);
        assert(done@.map_values(|x: String| x@) =~= before.map_values(|x: String| x@).push(piece@));
    }
    done
}

proof fn lemma_items_prefix(a: Seq<Seq<char>>, b: Seq<Seq<char>>, n: int)
    requires
        0 <= n <= a.len(),
        n <= b.len(),
        forall|k: int| 0 <= k < n ==> a[k] == b[k],
    ensures
        items_upto(a, n) == items_upto(b, n),
    decreases n,
{
    if n > 0 {
        lemma_items_prefix(a, b, n - 1);
    }
}

} // verus!
