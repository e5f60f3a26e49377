use vstd::prelude::*;

verus! {

/// Appends `c` to `s`, by `String::push`.
/// Trusted: the standard library documents that `push` appends the given
/// character to the end of the string, which is all that is claimed here.
#[verifier::external_body]
pub(crate) fn push_char(s: &mut String, c: char)
    ensures
        final(s)@ == old(s)@.push(c),
{
    s.push(c);
}

/// The sequence of `k` blanks.
pub open spec fn spaces(k: nat) -> Seq<char> {
    Seq::new(k, |i: int| ' ')
}

/// `spaces(k)` is `k` blank characters.
pub proof fn lemma_spaces(k: nat)
    ensures
        spaces(k).len() == k,
        forall|i: int| 0 <= i < k ==> #[trigger] spaces(k)[i] == ' ',
{
}

/// Appends `k` blanks to `s`.
pub fn push_spaces(s: &mut String, k: usize)
    ensures
        final(s)@ == old(s)@ + spaces(k as nat),
{
    let mut j: usize = 0;
    while j < k
        invariant
            j <= k,
            s@ == old(s)@ + spaces(j as nat),
        decreases k - j,
    {
        push_char(s, ' ');
        assert(s@ =~= old(s)@ + spaces((j + 1) as nat));
        j = j + 1;
    }
}

} // verus!
