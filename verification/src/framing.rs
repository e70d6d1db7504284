use vstd::prelude::*;

use crate::gps::{
    complete_len, first_crlf, framed, is_crlf_at, latest_fix, lemma_complete_len,
    lemma_first_crlf, lemma_latest_fix_without_fix, lines_from, spec_fix_of_line, spec_read,
    Reading, BUFFER_CAP,
};

verus! {

/// The later of two fixes: the second if there is one, else the first.
pub open spec fn later_or(earlier: Option<Reading>, later: Option<Reading>) -> Option<Reading> {
    if later is Some {
        later
    } else {
        earlier
    }
}

/// An earlier fix matters only where the lines hold none.
pub proof fn lemma_latest_fix_from(earlier: Option<Reading>, lines: Seq<Seq<u8>>)
    ensures
        latest_fix(earlier, lines) == later_or(earlier, latest_fix(None, lines)),
    decreases lines.len(),
{
    if lines.len() > 0 {
        let rest = lines.drop_first();
        lemma_latest_fix_from(later_or(earlier, spec_fix_of_line(lines[0])), rest);
        lemma_latest_fix_from(later_or(None, spec_fix_of_line(lines[0])), rest);
    }
}

/// Looking through two runs of lines one after the other is looking through
/// them joined.
pub proof fn lemma_latest_fix_joined(
    earlier: Option<Reading>,
    a: Seq<Seq<u8>>,
    b: Seq<Seq<u8>>,
)
    ensures
        latest_fix(earlier, a + b) == latest_fix(latest_fix(earlier, a), b),
    decreases a.len(),
{
    if a.len() > 0 {
        assert((a + b).drop_first() =~= a.drop_first() + b);
        lemma_latest_fix_joined(later_or(earlier, spec_fix_of_line(a[0])), a.drop_first(), b);
    }
}

proof fn lemma_first_crlf_in_front(a: Seq<u8>, b: Seq<u8>, from: int)
    requires
        0 <= from <= a.len(),
        first_crlf(a, from) < a.len(),
    ensures
        first_crlf(a + b, from) == first_crlf(a, from),
    decreases a.len() - from,
{
    if from + 1 < a.len() && !is_crlf_at(a, from) {
        lemma_first_crlf_in_front(a, b, from + 1);
    }
}

proof fn lemma_first_crlf_behind(a: Seq<u8>, b: Seq<u8>, k: int)
    requires
        0 <= k <= b.len(),
    ensures
        first_crlf(a + b, a.len() + k) == a.len() + first_crlf(b, k),
    decreases b.len() - k,
{
    if k + 1 < b.len() && !is_crlf_at(b, k) {
        lemma_first_crlf_behind(a, b, k + 1);
    }
}

proof fn lemma_lines_behind(a: Seq<u8>, b: Seq<u8>, k: int)
    requires
        0 <= k <= b.len(),
    ensures
        lines_from(a + b, a.len() + k) == lines_from(b, k),
    decreases b.len() - k,
{
    lemma_first_crlf_behind(a, b, k);
    lemma_first_crlf(b, k);
    let end = first_crlf(b, k);
    if end + 2 > b.len() {
        assert((a + b).subrange(a.len() + k, (a + b).len() as int) =~= b.subrange(
            k,
            b.len() as int,
        ));
    } else {
        lemma_lines_behind(a, b, end + 2);
        assert((a + b).subrange(a.len() + k, a.len() + end) =~= b.subrange(k, end));
    }
}

/// Whether bytes are nothing but complete lines.
pub open spec fn is_complete(s: Seq<u8>) -> bool {
    s.len() == 0 || is_crlf_at(s, s.len() - 2)
}

proof fn lemma_lines_of_joined(a: Seq<u8>, b: Seq<u8>, start: int)
    requires
        is_complete(a),
        0 <= start <= a.len(),
        start == a.len() || first_crlf(a, start) < a.len(),
    ensures
        lines_from(a, start).len() > 0,
        lines_from(a, start).last() == Seq::<u8>::empty(),
        lines_from(a + b, start) == lines_from(a, start).drop_last() + lines_from(b, 0),
    decreases a.len() - start,
{
    if start == a.len() {
        lemma_lines_behind(a, b, 0);
        assert(a.subrange(start, a.len() as int) =~= Seq::<u8>::empty());
    } else {
        let end = first_crlf(a, start);
        lemma_first_crlf(a, start);
        lemma_first_crlf_in_front(a, b, start);
        if end + 2 < a.len() {
            lemma_first_crlf(a, end + 2);
        }
        lemma_lines_of_joined(a, b, end + 2);
        assert((a + b).subrange(start, end) =~= a.subrange(start, end));
    }
}

proof fn lemma_complete_len_is_unique(s: Seq<u8>, end: int)
    requires
        0 <= end <= s.len(),
        end > 0 ==> is_crlf_at(s, end - 2),
        forall|i: int| end - 1 <= i && i + 2 <= s.len() ==> !is_crlf_at(s, i),
    ensures
        complete_len(s, s.len() as int) == end,
{
    lemma_complete_len(s, s.len() as int);
}

/// It does not matter where a read ends: bytes that come in two reads leave
/// the same rest behind as if they had come in one, and the later of the two
/// fixes is the fix of the one.
pub proof fn lemma_framing_is_chunk_independent(buffer: Seq<u8>, first: Seq<u8>, second: Seq<u8>)
    ensures
        ({
            let (fix_1, rest_1) = framed(buffer + first);
            let (fix_2, rest_2) = framed(rest_1 + second);
            let (fix, rest) = framed(buffer + first + second);
            rest == rest_2 && fix == later_or(fix_1, fix_2)
        }),
{
    let all_1 = buffer + first;
    let end_1 = complete_len(all_1, all_1.len() as int);
    lemma_complete_len(all_1, all_1.len() as int);
    let rest_1 = all_1.subrange(end_1, all_1.len() as int);
    let all_2 = rest_1 + second;
    let end_2 = complete_len(all_2, all_2.len() as int);
    lemma_complete_len(all_2, all_2.len() as int);
    let all = all_1 + second;
    assert forall|i: int| 0 <= i < all_2.len() implies all_2[i] == all[end_1 + i] by {}
    assert forall|i: int| 0 <= i < all_1.len() implies all_1[i] == all[i] by {}
    assert forall|i: int| end_1 + end_2 - 1 <= i && i + 2 <= all.len() implies !is_crlf_at(
        all,
        i,
    ) by {
        if i >= end_1 {
            assert(is_crlf_at(all, i) == is_crlf_at(all_2, i - end_1));
        }
    }
    lemma_complete_len_is_unique(all, end_1 + end_2);
    assert(all.subrange(end_1 + end_2, all.len() as int) =~= all_2.subrange(
        end_2,
        all_2.len() as int,
    ));

    let a = all_1.subrange(0, end_1);
    let b = all_2.subrange(0, end_2);
    assert(all.subrange(0, end_1 + end_2) =~= a + b);
    if a.len() > 0 {
        lemma_first_crlf(a, 0);
    }
    lemma_lines_of_joined(a, b, 0);
    let lines_a = lines_from(a, 0);
    let lines_b = lines_from(b, 0);
    let front = lines_a.drop_last();
    assert(lines_a =~= front + seq![Seq::<u8>::empty()]);
    lemma_latest_fix_joined(None, front, seq![Seq::<u8>::empty()]);
    lemma_latest_fix_without_fix(latest_fix(None, front), seq![Seq::<u8>::empty()]);
    lemma_latest_fix_joined(None, front, lines_b);
    lemma_latest_fix_from(latest_fix(None, lines_a), lines_b);
}

/// The same of whole reads, as long as the first of the two leaves a rest
/// within the cap.
pub proof fn lemma_read_is_chunk_independent(buffer: Seq<u8>, first: Seq<u8>, second: Seq<u8>)
    requires
        first.len() > 0,
        second.len() > 0,
        framed(buffer + first).1.len() <= BUFFER_CAP,
    ensures
        ({
            let (fix_1, rest_1) = spec_read(buffer, first);
            let (fix_2, rest_2) = spec_read(rest_1, second);
            let (fix, rest) = spec_read(buffer, first + second);
            rest == rest_2 && fix == later_or(fix_1, fix_2)
        }),
{
    lemma_framing_is_chunk_independent(buffer, first, second);
    assert(buffer + (first + second) =~= buffer + first + second);
}

} // verus!
