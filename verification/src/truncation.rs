//! Cutting text to a byte budget, with a marker that says how much was cut.

use crate::text::{
    byte_len, decimal, lemma_decimal_injective, lemma_encode_concat, push_decimal,
};
use vstd::prelude::*;
use vstd::string::StringExecFns;
use vstd::string::StringSliceAdditionalSpecFns;
use vstd::utf8::{
    decode_utf8, encode_utf8, encode_utf8_decode_utf8, encode_utf8_valid_utf8, is_char_boundary,
    length_of_first_scalar, pop_first_scalar, valid_utf8,
};

verus! {

/// The marker that stands for `cut` elided bytes.
pub open spec fn marker(cut: nat) -> Seq<char> {
    "... [truncated "@ + decimal(cut) + " bytes]"@
}

/// Where text of the given UTF-8 bytes is cut for a budget of `max_len`
/// bytes: at the last character boundary that is not beyond the budget.
pub open spec fn cut_point(bytes: Seq<u8>, max_len: int) -> int
    decreases max_len,
{
    if max_len <= 0 {
        0
    } else if is_char_boundary(bytes, max_len) {
        max_len
    } else {
        cut_point(bytes, max_len - 1)
    }
}

/// `text` cut to a budget of `max_len` bytes. Text within the budget stays as
/// it is. Longer text keeps its bytes before the cut point, and the marker
/// counts every byte after it.
pub open spec fn truncated(text: Seq<char>, max_len: nat) -> Seq<char> {
    let bytes = encode_utf8(text);
    if bytes.len() <= max_len {
        text
    } else {
        let kept = cut_point(bytes, max_len as int);
        decode_utf8(bytes.subrange(0, kept)) + marker((bytes.len() - kept) as nat)
    }
}

/// The cut point lies within the budget, on a character boundary.
pub proof fn lemma_cut_point(bytes: Seq<u8>, max_len: int)
    requires
        valid_utf8(bytes),
        0 <= max_len,
    ensures
        0 <= cut_point(bytes, max_len) <= max_len,
        is_char_boundary(bytes, cut_point(bytes, max_len)),
        forall|i: int|
            cut_point(bytes, max_len) < i <= max_len ==> !is_char_boundary(bytes, i),
    decreases max_len,
{
    if max_len > 0 && !is_char_boundary(bytes, max_len) {
        lemma_cut_point(bytes, max_len - 1);
    }
}

/// The cut point lies less than four bytes before the budget: no character
/// takes more than four bytes.
pub proof fn lemma_cut_point_close(bytes: Seq<u8>, max_len: int)
    requires
        valid_utf8(bytes),
        0 <= max_len <= bytes.len(),
    ensures
        max_len - 4 < cut_point(bytes, max_len),
{
    lemma_boundary_nearby(bytes, max_len);
    lemma_cut_point(bytes, max_len);
}

/// One of any four positions in a row is a character boundary.
proof fn lemma_boundary_nearby(bytes: Seq<u8>, at: int)
    requires
        valid_utf8(bytes),
        0 <= at <= bytes.len(),
    ensures
        exists|near: int| at - 4 < near <= at && 0 <= near && is_char_boundary(bytes, near),
    decreases bytes.len(),
{
    if at == 0 {
        assert(is_char_boundary(bytes, 0));
    } else {
        let width = length_of_first_scalar(bytes);
        if at < width {
            assert(is_char_boundary(bytes, 0));
        } else {
            let rest = pop_first_scalar(bytes);
            lemma_boundary_nearby(rest, at - width);
            let near = choose|near: int|
                at - width - 4 < near <= at - width && 0 <= near && is_char_boundary(rest, near);
            assert(is_char_boundary(bytes, near + width));
        }
    }
}

/// The marker tells how many bytes were cut: markers for different counts
/// differ.
pub proof fn lemma_marker_tells_the_cut(a: nat, b: nat)
    requires
        marker(a) == marker(b),
    ensures
        a == b,
{
    let front = "... [truncated "@;
    let back = " bytes]"@;
    assert(marker(a).len() == front.len() + decimal(a).len() + back.len());
    assert(marker(b).len() == front.len() + decimal(b).len() + back.len());
    assert(decimal(a) =~= marker(a).subrange(
        front.len() as int,
        (front.len() + decimal(a).len()) as int,
    ));
    assert(decimal(b) =~= marker(b).subrange(
        front.len() as int,
        (front.len() + decimal(b).len()) as int,
    ));
    lemma_decimal_injective(a, b);
}

/// Cuts text to a budget of `max_len` bytes. Text within the budget comes
/// back as it is. Longer text comes back cut, with a marker behind it that
/// counts the bytes that were cut off. The cut never splits a character:
/// where the budget ends inside one, that character is cut off whole.
pub fn truncate_string(s: &str, max_len: usize) -> (out: String)
    ensures
        out@ == truncated(s@, max_len as nat),
{
    let len = byte_len(s);
    if len <= max_len {
        return String::from_str(s);
    }
    let ghost bytes = s.spec_bytes();
    proof {
        encode_utf8_valid_utf8(s@);
    }
    let mut kept: usize = max_len;
    while !s.is_char_boundary(kept)
        invariant
            kept <= max_len,
            bytes == s.spec_bytes(),
            valid_utf8(bytes),
            cut_point(bytes, kept as int) == cut_point(bytes, max_len as int),
        decreases kept,
    {
        kept -= 1;
    }
    proof {
        lemma_cut_point(bytes, max_len as int);
    }
    let (head, _) = s.split_at(kept);
    let mut out = String::from_str(head);
    out.append("... [truncated ");
    push_decimal(&mut out, len - kept);
    out.append(" bytes]");
    proof {
        encode_utf8_decode_utf8(head@);
        assert(out@ =~= truncated(s@, max_len as nat));
    }
    out
}

/// Text within the budget comes back unchanged.
pub proof fn lemma_truncate_within_budget(text: Seq<char>, max_len: nat)
    requires
        encode_utf8(text).len() <= max_len,
    ensures
        truncated(text, max_len) == text,
{
}

/// Text beyond the budget, with a character boundary at the budget, keeps
/// exactly its first `max_len` bytes, followed by the marker for the rest.
pub proof fn lemma_truncate_beyond_budget(text: Seq<char>, max_len: nat)
    requires
        encode_utf8(text).len() > max_len,
        is_char_boundary(encode_utf8(text), max_len as int),
    ensures
        encode_utf8(truncated(text, max_len)).len() == max_len + encode_utf8(
            marker((encode_utf8(text).len() - max_len) as nat),
        ).len(),
        encode_utf8(truncated(text, max_len)).subrange(0, max_len as int) == encode_utf8(
            text,
        ).subrange(0, max_len as int),
        truncated(text, max_len) == decode_utf8(encode_utf8(text).subrange(0, max_len as int))
            + marker((encode_utf8(text).len() - max_len) as nat),
{
    let bytes = encode_utf8(text);
    encode_utf8_valid_utf8(text);
    lemma_truncate_any(text, max_len);
    assert(cut_point(bytes, max_len as int) == max_len);
}

/// Text beyond the budget keeps its bytes before the cut point, followed by
/// the marker for all the others.
pub proof fn lemma_truncate_any(text: Seq<char>, max_len: nat)
    requires
        encode_utf8(text).len() > max_len,
    ensures
        ({
            let bytes = encode_utf8(text);
            let kept = cut_point(bytes, max_len as int);
            let out = encode_utf8(truncated(text, max_len));
            &&& max_len - 4 < kept <= max_len
            &&& out == bytes.subrange(0, kept) + encode_utf8(marker((bytes.len() - kept) as nat))
            &&& out.len() == kept + encode_utf8(marker((bytes.len() - kept) as nat)).len()
            &&& out.subrange(0, kept) == bytes.subrange(0, kept)
        }),
{
    let bytes = encode_utf8(text);
    encode_utf8_valid_utf8(text);
    lemma_cut_point(bytes, max_len as int);
    lemma_cut_point_close(bytes, max_len as int);
    let kept = cut_point(bytes, max_len as int);
    let head = bytes.subrange(0, kept);
    let tail = marker((bytes.len() - kept) as nat);
    vstd::utf8::valid_utf8_split(bytes, kept);
    vstd::utf8::decode_utf8_encode_utf8(head);
    lemma_encode_concat(decode_utf8(head), tail);
    assert((head + encode_utf8(tail)).subrange(0, kept) =~= head);
}

} // verus!
