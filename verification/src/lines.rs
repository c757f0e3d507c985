//! Lines in a sequence of bytes.
use vstd::prelude::*;
use vstd::utf8::*;

verus! {

/// The place of the last line break.
pub open spec fn last_line_break(bytes: Seq<u8>) -> Option<int>
    decreases bytes.len(),
{
    if bytes.len() == 0 {
        None
    } else if bytes.last() == 10 {
        Some(bytes.len() - 1)
    } else {
        last_line_break(bytes.drop_last())
    }
}

/// The place of the first line break at or after a position.
pub open spec fn next_line_break(bytes: Seq<u8>, from: int) -> Option<int>
    decreases bytes.len() - from,
{
    if from < 0 || from >= bytes.len() {
        None
    } else if bytes[from] == 10 {
        Some(from)
    } else {
        next_line_break(bytes, from + 1)
    }
}

/// Finds the last line break.
pub fn find_last_line_break(bytes: &[u8]) -> (r: Option<usize>)
    ensures
        match r {
            Some(k) => last_line_break(bytes@) == Some(k as int) && k < bytes@.len()
                && bytes@[k as int] == 10,
            None => last_line_break(bytes@) is None,
        },
{
    let mut i: usize = bytes.len();
    assert(bytes@.take(i as int) =~= bytes@);
    while i > 0
        invariant
            i <= bytes@.len(),
            last_line_break(bytes@) == last_line_break(bytes@.take(i as int)),
        decreases i,
    {
        proof {
            assert(bytes@.take(i as int).drop_last() =~= bytes@.take(i - 1));
        }
        if bytes[i - 1] == 10 {
            return Some(i - 1);
        }
        i = i - 1;
    }
    None
}

/// Finds the first line break at or after a position.
pub fn find_line_break(bytes: &[u8], from: usize) -> (r: Option<usize>)
    requires
        from <= bytes@.len(),
    ensures
        match r {
            Some(k) => next_line_break(bytes@, from as int) == Some(k as int) && from <= k
                < bytes@.len() && bytes@[k as int] == 10,
            None => next_line_break(bytes@, from as int) is None,
        },
{
    let mut i: usize = from;
    while i < bytes.len()
        invariant
            from <= i <= bytes@.len(),
            next_line_break(bytes@, from as int) == next_line_break(bytes@, i as int),
        decreases bytes@.len() - i,
    {
        if bytes[i] == 10 {
            return Some(i);
        }
        i = i + 1;
    }
    None
}

/// The parts of a valid text before and after a line break are valid themselves.
pub proof fn line_break_splits_text(bytes: Seq<u8>, k: int)
    requires
        valid_utf8(bytes),
        0 <= k < bytes.len(),
        bytes[k] == 10,
    ensures
        valid_utf8(bytes.take(k)),
        valid_utf8(bytes.skip(k + 1)),
{
    is_char_boundary_iff_not_is_continuation_byte(bytes, k);
    valid_utf8_split(bytes, k);
    assert(bytes.subrange(0, k) =~= bytes.take(k));
    let rest = bytes.subrange(k, bytes.len() as int);
    assert(pop_first_scalar(rest) =~= bytes.skip(k + 1));
}

proof fn lemma_wide_bytes(v: u32)
    by (bit_vector)
    ensures
        leading_byte_width_2(v) >= 0x80,
        leading_byte_width_3(v) >= 0x80,
        leading_byte_width_4(v) >= 0x80,
        last_continuation_byte(v) >= 0x80,
        second_last_continuation_byte(v) >= 0x80,
        third_last_continuation_byte(v) >= 0x80,
        v <= 0x7f ==> leading_byte_width_1(v) == v,
{
}

proof fn lemma_no_break_in(c: char)
    requires
        c != '\n',
    ensures
        forall|i: int|
            0 <= i < encode_scalar(c as u32).len() ==> #[trigger] encode_scalar(c as u32)[i] != 10,
{
    lemma_wide_bytes(c as u32);
}

/// In the bytes of a line, the line break at its end is the only one.
pub proof fn encoded_line_ends_at_its_break(line: Seq<char>)
    requires
        !line.contains('\n'),
    ensures
        encode_utf8(line.push('\n')) == encode_utf8(line).push(10u8),
        forall|i: int| 0 <= i < encode_utf8(line).len() ==> #[trigger] encode_utf8(line)[i] != 10,
    decreases line.len(),
{
    lemma_wide_bytes('\n' as u32);
    if line.len() == 0 {
        let one = line.push('\n');
        assert(one.drop_first() =~= Seq::<char>::empty());
        assert(encode_utf8(one) =~= encode_scalar('\n' as u32) + encode_utf8(one.drop_first()));
        assert(encode_utf8(one) =~= encode_utf8(line).push(10u8));
    } else {
        let rest = line.drop_first();
        assert(!rest.contains('\n')) by {
            assert forall|i: int| 0 <= i < rest.len() implies #[trigger] rest[i] != '\n' by {
                assert(line.contains(line[i + 1]));
            }
        }
        encoded_line_ends_at_its_break(rest);
        assert(line.push('\n').drop_first() =~= rest.push('\n'));
        assert(line.contains(line[0]));
        lemma_no_break_in(line[0]);
        let first = encode_scalar(line[0] as u32);
        assert(encode_utf8(line.push('\n')) =~= encode_utf8(line).push(10u8));
        assert forall|i: int| 0 <= i < encode_utf8(line).len() implies #[trigger] encode_utf8(
            line,
        )[i] != 10 by {
            if i < first.len() {
                assert(encode_utf8(line)[i] == first[i]);
            } else {
                assert(encode_utf8(line)[i] == encode_utf8(rest)[i - first.len()]);
            }
        }
    }
}

/// The first line break after a stretch without one.
pub proof fn next_line_break_after(bytes: Seq<u8>, from: int, k: int)
    requires
        0 <= from <= k < bytes.len(),
        forall|i: int| from <= i < k ==> #[trigger] bytes[i] != 10,
        bytes[k] == 10,
    ensures
        next_line_break(bytes, from) == Some(k),
    decreases k - from,
{
    if from < k {
        next_line_break_after(bytes, from + 1, k);
    }
}

/// Bytes that come later do not move a line break that was found before.
pub proof fn line_breaks_stay(bytes: Seq<u8>, more: Seq<u8>, from: int)
    requires
        next_line_break(bytes, from) is Some,
    ensures
        next_line_break(bytes + more, from) == next_line_break(bytes, from),
        from <= next_line_break(bytes, from)->0 < bytes.len(),
    decreases bytes.len() - from,
{
    if 0 <= from < bytes.len() {
        assert((bytes + more)[from] == bytes[from]);
        if bytes[from] != 10 {
            line_breaks_stay(bytes, more, from + 1);
        }
    }
}

}
