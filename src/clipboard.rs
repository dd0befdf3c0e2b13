use vstd::prelude::*;
use vstd::string::StringSliceAdditionalSpecFns;

verus! {

/// The bytes of a string with every NUL byte removed.
pub open spec fn without_nul(s: Seq<u8>) -> Seq<u8>
    decreases s.len(),
{
    if s.len() == 0 {
        seq![]
    } else if s.last() == 0 {
        without_nul(s.drop_last())
    } else {
        without_nul(s.drop_last()).push(s.last())
    }
}

/// The bytes handed to the host clipboard for a GUI string: the string's UTF-8 bytes with
/// every NUL byte dropped, so that the host sees the whole text as one C string.
pub fn clipboard_bytes(value: &str) -> (r: Vec<u8>)
    ensures
        r@ == without_nul(value.spec_bytes()),
{
    let bytes = value.as_bytes();
    let mut out: Vec<u8> = Vec::new();
    let mut i: usize = 0;
    while i < bytes.len()
        invariant
            i <= bytes@.len(),
            bytes@ == value.spec_bytes(),
            out@ == without_nul(bytes@.take(i as int)),
        decreases bytes@.len() - i,
    {
        let b = bytes[i];
        assert(bytes@.take(i + 1).drop_last() =~= bytes@.take(i as int));
        if b != 0 {
            out.push(b);
        }
        i = i + 1;
    }
    assert(bytes@.take(i as int) =~= bytes@);
    out
}

/// A text without NUL bytes reaches the host clipboard unchanged.
pub proof fn lemma_clipboard_keeps_plain_text(s: Seq<u8>)
    requires
        forall|i: int| 0 <= i < s.len() ==> s[i] != 0,
    ensures
        without_nul(s) == s,
    decreases s.len(),
{
    if s.len() > 0 {
        lemma_clipboard_keeps_plain_text(s.drop_last());
        assert(s.drop_last().push(s.last()) =~= s);
    }
}

proof fn lemma_without_nul_append(a: Seq<u8>, b: Seq<u8>)
    ensures
        without_nul(a + b) == without_nul(a) + without_nul(b),
    decreases b.len(),
{
    if b.len() == 0 {
        assert(a + b =~= a);
        assert(without_nul(a) + without_nul(b) =~= without_nul(a));
    } else {
        lemma_without_nul_append(a, b.drop_last());
        assert((a + b).drop_last() =~= a + b.drop_last());
        assert((a + b).last() == b.last());
        if b.last() != 0 {
            assert(without_nul(a) + without_nul(b.drop_last()).push(b.last()) =~= (without_nul(a)
                + without_nul(b.drop_last())).push(b.last()));
        }
    }
}

/// A text holding exactly one NUL byte reaches the host clipboard with that byte removed.
pub proof fn lemma_clipboard_drops_single_nul(s: Seq<u8>, p: int)
    requires
        0 <= p < s.len(),
        s[p] == 0,
        forall|i: int| 0 <= i < s.len() && i != p ==> s[i] != 0,
    ensures
        without_nul(s) == s.remove(p),
{
    let before = s.take(p);
    let after = s.skip(p + 1);
    assert(s =~= before + seq![0u8] + after);
    assert(s.remove(p) =~= before + after);
    lemma_clipboard_keeps_plain_text(before);
    lemma_clipboard_keeps_plain_text(after);
    lemma_without_nul_append(before + seq![0u8], after);
    lemma_without_nul_append(before, seq![0u8]);
    let nul = seq![0u8];
    assert(nul.len() == 1 && nul.last() == 0u8);
    assert(nul.drop_last() =~= Seq::<u8>::empty());
    assert(without_nul(nul.drop_last()) == Seq::<u8>::empty());
    assert(without_nul(nul) =~= Seq::<u8>::empty());
    assert(without_nul(before) + without_nul(seq![0u8]) =~= before);
}

} // verus!
