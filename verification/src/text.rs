//! ASCII-whitespace classification and word splitting over byte runs.
//!
//! A text run is a sequence of bytes; its words are the maximal runs of
//! non-whitespace bytes, in order, with empty splits dropped.

use vstd::prelude::*;

verus! {

/// Whether `b` is an ASCII whitespace byte: space, horizontal tab, line
/// feed, form feed or carriage return.
pub open spec fn is_ascii_ws(b: u8) -> bool {
    b == 32 || b == 9 || b == 10 || b == 12 || b == 13
}

/// Executable test for ASCII whitespace.
pub fn byte_is_ascii_ws(b: u8) -> (r: bool)
    ensures
        r == is_ascii_ws(b),
{
    b == 32 || b == 9 || b == 10 || b == 12 || b == 13
}

/// The words of `s` after the partial word `cur` has already been read:
/// scans `s` byte by byte, closing `cur` at each whitespace byte and
/// dropping empty splits.
pub open spec fn words_acc(s: Seq<u8>, cur: Seq<u8>) -> Seq<Seq<u8>>
    decreases s.len(),
{
    if s.len() == 0 {
        if cur.len() == 0 {
            Seq::empty()
        } else {
            seq![cur]
        }
    } else if is_ascii_ws(s[0]) {
        if cur.len() == 0 {
            words_acc(s.drop_first(), Seq::empty())
        } else {
            seq![cur] + words_acc(s.drop_first(), Seq::empty())
        }
    } else {
        words_acc(s.drop_first(), cur.push(s[0]))
    }
}

/// The words of the byte run `s`: maximal runs of non-whitespace bytes,
/// in order.
pub open spec fn words_of(s: Seq<u8>) -> Seq<Seq<u8>> {
    words_acc(s, Seq::empty())
}

/// Scanning across a whitespace byte with no partial word open changes
/// nothing.
pub proof fn lemma_words_acc_ws(s: Seq<u8>, i: int)
    requires
        0 <= i < s.len(),
        is_ascii_ws(s[i]),
    ensures
        words_acc(s.skip(i), Seq::empty()) == words_acc(s.skip(i + 1), Seq::empty()),
{
    assert(s.skip(i).drop_first() =~= s.skip(i + 1));
}

/// Scanning across a run of non-whitespace bytes extends the partial
/// word by exactly those bytes.
pub proof fn lemma_words_acc_no_ws(s: Seq<u8>, i: int, j: int, cur: Seq<u8>)
    requires
        0 <= i <= j <= s.len(),
        forall|t: int| i <= t < j ==> !is_ascii_ws(s[t]),
    ensures
        words_acc(s.skip(i), cur) == words_acc(s.skip(j), cur + s.subrange(i, j)),
    decreases j - i,
{
    if i == j {
        assert(cur + s.subrange(i, j) =~= cur);
    } else {
        assert(s.skip(i)[0] == s[i]);
        assert(!is_ascii_ws(s[i]));
        assert(s.skip(i).drop_first() =~= s.skip(i + 1));
        assert(cur.push(s[i]) =~= cur + s.subrange(i, i + 1));
        lemma_words_acc_no_ws(s, i + 1, j, cur + s.subrange(i, i + 1));
        assert((cur + s.subrange(i, i + 1)) + s.subrange(i + 1, j) =~= cur + s.subrange(i, j));
    }
}

/// At a word boundary (the end of the run or a whitespace byte), the
/// open partial word is emitted before the rest of the words.
pub proof fn lemma_words_acc_close(s: Seq<u8>, j: int, w: Seq<u8>)
    requires
        0 <= j <= s.len(),
        w.len() > 0,
        j == s.len() || is_ascii_ws(s[j]),
    ensures
        words_acc(s.skip(j), w) == seq![w] + words_acc(s.skip(j), Seq::empty()),
{
    if j == s.len() {
        assert(s.skip(j).len() == 0);
        assert(seq![w] + words_acc(s.skip(j), Seq::<u8>::empty()) =~= seq![w]);
    } else {
        assert(s.skip(j)[0] == s[j]);
        assert(s.skip(j).drop_first() =~= s.skip(j + 1));
    }
}

/// A nonempty run with no whitespace at all is exactly one word: the
/// run itself.
pub proof fn lemma_words_of_single(s: Seq<u8>)
    requires
        s.len() > 0,
        forall|t: int| 0 <= t < s.len() ==> !is_ascii_ws(s[t]),
    ensures
        words_of(s) == seq![s],
{
    lemma_words_acc_no_ws(s, 0, s.len() as int, Seq::empty());
    assert(s.skip(0) =~= s);
    assert(Seq::<u8>::empty() + s.subrange(0, s.len() as int) =~= s);
    assert(s.skip(s.len() as int).len() == 0);
    assert(words_acc(s.skip(s.len() as int), s) == seq![s]);
}

/// Byte-vector equality, decided element by element.
pub fn vec_u8_eq(a: &Vec<u8>, b: &Vec<u8>) -> (r: bool)
    ensures
        r == (a@ == b@),
{
    if a.len() != b.len() {
        return false;
    }
    let mut i: usize = 0;
    while i < a.len()
        invariant
            a@.len() == b@.len(),
            0 <= i <= a@.len(),
            forall|j: int| 0 <= j < i ==> a@[j] == b@[j],
        decreases a@.len() - i,
    {
        if a[i] != b[i] {
            return false;
        }
        i += 1;
    }
    proof {
        assert(a@ =~= b@);
    }
    true
}

} // verus!
