use vstd::prelude::*;
use vstd::utf8::encode_utf8;
use crate::lines::{decimal, digits_value, lemma_decimal_len, lemma_decimal_reads_back, num_digits, push_decimal};

verus! {

/// `pattern` occurs in `text` starting at byte offset `i`.
pub open spec fn is_match_at(text: Seq<u8>, pattern: Seq<u8>, i: int) -> bool {
    &&& 0 <= i
    &&& i + pattern.len() <= text.len()
    &&& text.subrange(i, i + pattern.len()) == pattern
}

/// Offsets of the non-overlapping occurrences of `pattern` in `text` at or
/// after `from`, found left to right: after each occurrence the scan resumes
/// behind it. An empty pattern has no occurrences here.
pub open spec fn match_positions(text: Seq<u8>, pattern: Seq<u8>, from: nat) -> Seq<usize>
    decreases text.len() - from,
{
    if pattern.len() == 0 || from + pattern.len() > text.len() {
        Seq::empty()
    } else if is_match_at(text, pattern, from as int) {
        seq![from as usize] + match_positions(text, pattern, from + pattern.len())
    } else {
        match_positions(text, pattern, from + 1)
    }
}

fn bytes_match_at(text: &[u8], pattern: &[u8], i: usize) -> (res: bool)
    requires
        i <= text@.len(),
        text@.len() - i >= pattern@.len(),
    ensures
        res == is_match_at(text@, pattern@, i as int),
{
    let m = pattern.len();
    let n = text.len();
    let mut j: usize = 0;
    while j < m
        invariant
            n == text@.len(),
            j <= m,
            m == pattern@.len(),
            i + m <= text@.len(),
            forall|k: int| 0 <= k < j ==> text@[i + k] == pattern@[k],
        decreases m - j,
    {
        if text[i + j] != pattern[j] {
            assert(text@.subrange(i as int, i + m)[j as int] != pattern@[j as int]);
            return false;
        }
        j = j + 1;
    }
    assert(text@.subrange(i as int, i + m) =~= pattern@);
    true
}

/// Byte offsets of the matches of `query` in `text`, left to right and
/// non-overlapping, as `str::match_indices` reports them; none for an empty
/// query.
pub fn search_matches(text: &str, query: &str) -> (locations: Vec<usize>)
    ensures
        locations@ == match_positions(encode_utf8(text@), encode_utf8(query@), 0),
        query@.len() == 0 ==> locations@.len() == 0,
{
    let t = text.as_bytes();
    let p = query.as_bytes();
    let n = t.len();
    let m = p.len();
    let mut out: Vec<usize> = Vec::new();
    if m == 0 {
        return out;
    }
    let ghost tb = t@;
    let ghost pb = p@;
    let mut i: usize = 0;
    while i <= n && n - i >= m
        invariant
            tb == t@,
            pb == p@,
            n == tb.len(),
            m == pb.len(),
            m > 0,
            i <= n,
            out@ + match_positions(tb, pb, i as nat) == match_positions(tb, pb, 0),
        decreases n - i,
    {
        let ghost before = out@;
        if bytes_match_at(t, p, i) {
            out.push(i);
            assert(out@ + match_positions(tb, pb, (i + m) as nat)
                =~= before + match_positions(tb, pb, i as nat));
            i = i + m;
        } else {
            i = i + 1;
        }
    }
    assert(out@ =~= out@ + match_positions(tb, pb, i as nat));
    out
}

/// Every offset the search reports is an occurrence of the pattern, at or
/// after where the search started, and the occurrences come in increasing
/// order without overlapping.
pub proof fn lemma_match_positions_sound(text: Seq<u8>, pattern: Seq<u8>, from: nat)
    requires
        text.len() <= usize::MAX,
    ensures
        forall|k: int|
            0 <= k < match_positions(text, pattern, from).len() ==> {
                let pos = #[trigger] match_positions(text, pattern, from)[k];
                &&& from <= pos
                &&& is_match_at(text, pattern, pos as int)
            },
        forall|k: int|
            0 <= k < match_positions(text, pattern, from).len() - 1 ==>
                #[trigger] match_positions(text, pattern, from)[k] + pattern.len()
                    <= match_positions(text, pattern, from)[k + 1],
    decreases text.len() - from,
{
    if pattern.len() == 0 || from + pattern.len() > text.len() {
    } else if is_match_at(text, pattern, from as int) {
        let rest = match_positions(text, pattern, from + pattern.len());
        lemma_match_positions_sound(text, pattern, from + pattern.len());
        let all = match_positions(text, pattern, from);
        assert(all == seq![from as usize] + rest);
        assert((from as usize) as int == from);
        assert forall|k: int| 0 <= k < all.len() implies {
            let pos = #[trigger] all[k];
            &&& from <= pos
            &&& is_match_at(text, pattern, pos as int)
        } by {
            if k > 0 {
                assert(all[k] == rest[k - 1]);
            }
        }
        assert forall|k: int| 0 <= k < all.len() - 1 implies
            #[trigger] all[k] + pattern.len() <= all[k + 1] by {
            assert(all[k + 1] == rest[k]);
            if k > 0 {
                assert(all[k] == rest[k - 1]);
            }
        }
    } else {
        lemma_match_positions_sound(text, pattern, from + 1);
        assert(match_positions(text, pattern, from) == match_positions(text, pattern, from + 1));
    }
}

/// No occurrence is missed: every occurrence of a non-empty pattern at or
/// after the start either is reported or overlaps a reported one that begins
/// before it (the scan skips over a match it has taken).
pub proof fn lemma_match_positions_complete(text: Seq<u8>, pattern: Seq<u8>, from: nat, j: int)
    requires
        text.len() <= usize::MAX,
        pattern.len() > 0,
        from <= j,
        is_match_at(text, pattern, j),
    ensures
        exists|k: int|
            0 <= k < match_positions(text, pattern, from).len() && {
                let pos = #[trigger] match_positions(text, pattern, from)[k];
                pos <= j < pos + pattern.len()
            },
    decreases text.len() - from,
{
    let all = match_positions(text, pattern, from);
    if from + pattern.len() > text.len() {
        assert(false);
    } else if is_match_at(text, pattern, from as int) {
        let rest = match_positions(text, pattern, from + pattern.len());
        assert(all == seq![from as usize] + rest);
        if j < from + pattern.len() {
            assert(all[0] == from);
        } else {
            lemma_match_positions_complete(text, pattern, from + pattern.len(), j);
            let k = choose|k: int|
                0 <= k < rest.len() && {
                    let pos = #[trigger] rest[k];
                    pos <= j < pos + pattern.len()
                };
            assert(all[k + 1] == rest[k]);
        }
    } else {
        assert(j != from);
        lemma_match_positions_complete(text, pattern, from + 1, j);
    }
}

/// The find dialog's count line, e.g. `3 maches found` (spelled as the
/// dialog shows it).
pub open spec fn match_count_text(n: nat) -> Seq<char> {
    decimal(n) + " maches found"@
}

/// Builds the find dialog's count line for `n` matches.
pub fn match_count_label(n: usize) -> (label: String)
    ensures
        label@ == match_count_text(n as nat),
{
    let mut label = String::new();
    push_decimal(&mut label, n);
    label.append(" maches found");
    assert(label@ =~= match_count_text(n as nat));
    label
}

/// The count line starts with the number of matches in decimal, which
/// reads back as that number, and goes on with " maches found".
pub proof fn lemma_match_count_text(n: nat)
    ensures
        digits_value(match_count_text(n).subrange(0, num_digits(n) as int)) == n,
        match_count_text(n).subrange(num_digits(n) as int, match_count_text(n).len() as int)
            == " maches found"@,
{
    lemma_decimal_len(n);
    lemma_decimal_reads_back(n);
    let t = match_count_text(n);
    assert(t.subrange(0, num_digits(n) as int) =~= decimal(n));
    assert(t.subrange(num_digits(n) as int, t.len() as int) =~= " maches found"@);
}

} // verus!
