use vstd::prelude::*;

verus! {

/// A copy of a slice.
pub fn to_vec(bytes: &[u8]) -> (copy: Vec<u8>)
    ensures
        copy@ == bytes@,
{
    let mut copy: Vec<u8> = Vec::with_capacity(bytes.len());
    let mut i: usize = 0;
    while i < bytes.len()
        invariant
            i <= bytes.len(),
            copy@ == bytes@.subrange(0, i as int),
        decreases bytes.len() - i,
    {
        copy.push(bytes[i]);
        i = i + 1;
        assert(copy@ =~= bytes@.subrange(0, i as int));
    }
    assert(bytes@.subrange(0, bytes.len() as int) =~= bytes@);
    copy
}

/// Appends a slice to a vector.
pub fn append(target: &mut Vec<u8>, bytes: &[u8])
    ensures
        final(target)@ == old(target)@ + bytes@,
{
    let mut i: usize = 0;
    while i < bytes.len()
        invariant
            i <= bytes.len(),
            target@ == old(target)@ + bytes@.subrange(0, i as int),
        decreases bytes.len() - i,
    {
        target.push(bytes[i]);
        i = i + 1;
        assert(target@ =~= old(target)@ + bytes@.subrange(0, i as int));
    }
    assert(bytes@.subrange(0, bytes.len() as int) =~= bytes@);
}

/// Whether `whole` is `head` followed by `tail` and nothing else.
pub fn is_joined(whole: &[u8], head: &[u8], tail: &[u8]) -> (joined: bool)
    ensures
        joined == (whole@ == head@ + tail@),
{
    if head.len() > whole.len() || whole.len() - head.len() != tail.len() {
        return false;
    }
    let mut i: usize = 0;
    while i < whole.len()
        invariant
            i <= whole.len(),
            whole.len() == head.len() + tail.len(),
            forall|k: int| 0 <= k < i ==> whole@[k] == (head@ + tail@)[k],
        decreases whole.len() - i,
    {
        let expected = if i < head.len() {
            head[i]
        } else {
            tail[i - head.len()]
        };
        if whole[i] != expected {
            return false;
        }
        i = i + 1;
    }
    assert(whole@ =~= head@ + tail@);
    true
}

} // verus!
