//! Text helpers shared by the rest of the library: comparison, decimal
//! numbers and facts about UTF-8 that the other modules lean on.

use vstd::prelude::*;
use vstd::string::StringExecFns;
use vstd::string::StringSliceAdditionalSpecFns;
use vstd::utf8::{
    decode_utf8, decode_utf8_split, encode_scalar, encode_utf8, encode_utf8_decode_utf8,
    encode_utf8_valid_utf8, is_char_boundary, is_char_boundary_iff_not_is_continuation_byte,
    is_continuation_byte, length_of_first_scalar, pop_first_scalar, valid_first_scalar,
    valid_utf8, valid_utf8_split,
};

verus! {

/// Two strings with the same UTF-8 bytes hold the same characters.
pub proof fn lemma_same_bytes_same_chars(a: Seq<char>, b: Seq<char>)
    requires
        encode_utf8(a) == encode_utf8(b),
    ensures
        a == b,
{
    encode_utf8_decode_utf8(a);
    encode_utf8_decode_utf8(b);
}

/// The UTF-8 bytes of a concatenation are the bytes of its parts, in order.
pub proof fn lemma_encode_concat(a: Seq<char>, b: Seq<char>)
    ensures
        encode_utf8(a + b) == encode_utf8(a) + encode_utf8(b),
    decreases a.len(),
{
    if a.len() == 0 {
        assert(a + b =~= b);
        assert(encode_utf8(a) + encode_utf8(b) =~= encode_utf8(b));
    } else {
        lemma_encode_concat(a.drop_first(), b);
        assert((a + b).drop_first() =~= a.drop_first() + b);
        assert(encode_utf8(a + b) =~= encode_scalar(a[0] as u32) + (encode_utf8(a.drop_first())
            + encode_utf8(b)));
    }
}

/// A copy of an optional text.
pub fn clone_text(text: &Option<String>) -> (copy: Option<String>)
    ensures
        copy == *text,
{
    match text {
        Some(s) => Some(s.clone()),
        None => None,
    }
}

/// The length of a string slice in bytes.
pub fn byte_len(s: &str) -> (len: usize)
    ensures
        len == s.spec_bytes().len(),
{
    s.as_bytes().len()
}

/// Whether two string slices hold the same text.
pub fn str_eq(a: &str, b: &str) -> (same: bool)
    ensures
        same == (a@ == b@),
{
    let x = a.as_bytes();
    let y = b.as_bytes();
    if x.len() != y.len() {
        return false;
    }
    let mut i: usize = 0;
    while i < x.len()
        invariant
            i <= x.len(),
            x.len() == y.len(),
            x@ == a.spec_bytes(),
            y@ == b.spec_bytes(),
            forall|j: int| 0 <= j < i ==> x@[j] == y@[j],
        decreases x.len() - i,
    {
        if x[i] != y[i] {
            return false;
        }
        i += 1;
    }
    proof {
        assert(x@ =~= y@);
        lemma_same_bytes_same_chars(a@, b@);
    }
    true
}

/// Whether `needle` stands in `hay` at position `at`.
pub open spec fn occurs_at<T>(hay: Seq<T>, needle: Seq<T>, at: int) -> bool {
    0 <= at && at + needle.len() <= hay.len() && hay.subrange(at, at + needle.len()) == needle
}

/// Whether `needle` stands somewhere in `hay`, as one contiguous run.
pub open spec fn occurs_in<T>(hay: Seq<T>, needle: Seq<T>) -> bool {
    exists|at: int| occurs_at(hay, needle, at)
}

/// Where a run of characters stands in a text, its bytes stand in the bytes
/// of the text.
pub proof fn lemma_occurs_chars_to_bytes(hay: Seq<char>, needle: Seq<char>, at: int)
    requires
        occurs_at(hay, needle, at),
    ensures
        occurs_at(
            encode_utf8(hay),
            encode_utf8(needle),
            encode_utf8(hay.subrange(0, at)).len() as int,
        ),
{
    let before = hay.subrange(0, at);
    let after = hay.subrange(at + needle.len(), hay.len() as int);
    assert(hay =~= (before + needle) + after);
    lemma_encode_concat(before + needle, after);
    lemma_encode_concat(before, needle);
    let start = encode_utf8(before).len() as int;
    assert(encode_utf8(hay).subrange(start, start + encode_utf8(needle).len()) =~= encode_utf8(
        needle,
    ));
}

/// A well-formed start of well-formed UTF-8 ends on a character boundary.
proof fn lemma_valid_prefix_boundary(whole: Seq<u8>, part: Seq<u8>)
    requires
        valid_utf8(whole),
        valid_utf8(part),
        part.len() <= whole.len(),
        whole.subrange(0, part.len() as int) == part,
    ensures
        is_char_boundary(whole, part.len() as int),
    decreases part.len(),
{
    if part.len() != 0 {
        assert(valid_first_scalar(part));
        assert(forall|j: int| 0 <= j < part.len() ==> part[j] == whole.subrange(
            0,
            part.len() as int,
        )[j]);
        assert(part[0] == whole[0]);
        let width = length_of_first_scalar(part);
        assert(width == length_of_first_scalar(whole));
        assert(width <= part.len());
        let part_rest = pop_first_scalar(part);
        let whole_rest = pop_first_scalar(whole);
        assert(whole_rest.subrange(0, part_rest.len() as int) =~= part_rest);
        lemma_valid_prefix_boundary(whole_rest, part_rest);
    }
}

/// Where the bytes of a run of characters stand in the bytes of a text, the
/// run stands in the text.
pub proof fn lemma_occurs_bytes_to_chars(hay: Seq<char>, needle: Seq<char>, at: int)
    requires
        occurs_at(encode_utf8(hay), encode_utf8(needle), at),
    ensures
        occurs_in(hay, needle),
{
    let hay_bytes = encode_utf8(hay);
    let needle_bytes = encode_utf8(needle);
    encode_utf8_valid_utf8(hay);
    encode_utf8_valid_utf8(needle);
    encode_utf8_decode_utf8(hay);
    encode_utf8_decode_utf8(needle);
    if needle_bytes.len() == 0 {
        assert(decode_utf8(needle_bytes) =~= Seq::<char>::empty());
        assert(hay.subrange(0, 0) =~= needle);
        assert(occurs_at(hay, needle, 0));
    } else {
        assert(valid_first_scalar(needle_bytes));
        assert(!is_continuation_byte(needle_bytes[0]));
        assert(hay_bytes.subrange(at, at + needle_bytes.len())[0] == hay_bytes[at]);
        is_char_boundary_iff_not_is_continuation_byte(hay_bytes, at);
        valid_utf8_split(hay_bytes, at);
        decode_utf8_split(hay_bytes, at);
        let tail = hay_bytes.subrange(at, hay_bytes.len() as int);
        assert(tail.subrange(0, needle_bytes.len() as int) =~= needle_bytes);
        lemma_valid_prefix_boundary(tail, needle_bytes);
        valid_utf8_split(tail, needle_bytes.len() as int);
        decode_utf8_split(tail, needle_bytes.len() as int);
        let before = decode_utf8(hay_bytes.subrange(0, at));
        let after = decode_utf8(tail.subrange(needle_bytes.len() as int, tail.len() as int));
        assert(hay =~= before + (needle + after));
        assert(hay.subrange(before.len() as int, (before.len() + needle.len()) as int) =~= needle);
        assert(occurs_at(hay, needle, before.len() as int));
    }
}

/// Whether the bytes of `needle` stand in `hay` at index `at`.
fn matches_at(hay: &[u8], needle: &[u8], at: usize) -> (same: bool)
    requires
        at + needle.len() <= hay.len(),
    ensures
        same == occurs_at(hay@, needle@, at as int),
{
    let mut i: usize = 0;
    while i < needle.len()
        invariant
            i <= needle.len(),
            at + needle.len() <= hay.len(),
            forall|j: int| 0 <= j < i ==> hay@[at + j] == needle@[j],
        decreases needle.len() - i,
    {
        if hay[at + i] != needle[i] {
            assert(hay@.subrange(at as int, at + needle.len())[i as int] != needle@[i as int]);
            return false;
        }
        i += 1;
    }
    assert(hay@.subrange(at as int, at + needle.len()) =~= needle@);
    true
}

/// Whether `needle` stands somewhere in `hay`. The empty text stands in
/// every text.
pub fn contains(hay: &str, needle: &str) -> (found: bool)
    ensures
        found == occurs_in(hay@, needle@),
{
    let hay_bytes = hay.as_bytes();
    let needle_bytes = needle.as_bytes();
    if needle_bytes.len() == 0 {
        proof {
            assert(hay_bytes@.subrange(0, 0) =~= needle_bytes@);
            lemma_occurs_bytes_to_chars(hay@, needle@, 0);
        }
        return true;
    }
    if needle_bytes.len() > hay_bytes.len() {
        proof {
            if occurs_in(hay@, needle@) {
                let at = choose|at: int| occurs_at(hay@, needle@, at);
                lemma_occurs_chars_to_bytes(hay@, needle@, at);
            }
        }
        return false;
    }
    let last: usize = hay_bytes.len() - needle_bytes.len();
    let mut at: usize = 0;
    while at <= last
        invariant
            at <= last + 1,
            last + needle_bytes.len() == hay_bytes.len(),
            needle_bytes.len() > 0,
            hay_bytes@ == hay.spec_bytes(),
            needle_bytes@ == needle.spec_bytes(),
            forall|j: int| 0 <= j < at ==> !occurs_at(hay_bytes@, needle_bytes@, j),
        decreases last + 1 - at,
    {
        if matches_at(hay_bytes, needle_bytes, at) {
            proof {
                lemma_occurs_bytes_to_chars(hay@, needle@, at as int);
            }
            return true;
        }
        at += 1;
    }
    proof {
        if occurs_in(hay@, needle@) {
            let found_at = choose|found_at: int| occurs_at(hay@, needle@, found_at);
            lemma_occurs_chars_to_bytes(hay@, needle@, found_at);
        }
    }
    false
}

/// The character that writes the digit `d`.
pub open spec fn digit(d: nat) -> char
    recommends
        d < 10,
{
    "0123456789"@[d as int]
}

/// The decimal numeral of `n`: no sign, no separators, no leading zero.
pub open spec fn decimal(n: nat) -> Seq<char>
    decreases n,
{
    if n < 10 {
        seq![digit(n)]
    } else {
        decimal(n / 10).push(digit(n % 10))
    }
}

/// Different digits are written differently.
pub proof fn lemma_digit_injective(a: nat, b: nat)
    requires
        a < 10,
        b < 10,
        digit(a) == digit(b),
    ensures
        a == b,
{
    reveal_strlit("0123456789");
}

/// Different numbers have different numerals.
pub proof fn lemma_decimal_injective(a: nat, b: nat)
    requires
        decimal(a) == decimal(b),
    ensures
        a == b,
    decreases a,
{
    if a < 10 && b < 10 {
        assert(decimal(a)[0] == digit(a));
        assert(decimal(b)[0] == digit(b));
        lemma_digit_injective(a, b);
    } else if a >= 10 && b >= 10 {
        let front_a = decimal(a / 10);
        let front_b = decimal(b / 10);
        assert(front_a.push(digit(a % 10)).len() == front_b.push(digit(b % 10)).len());
        assert(front_a =~= front_a.push(digit(a % 10)).drop_last());
        assert(front_b =~= front_b.push(digit(b % 10)).drop_last());
        assert(front_a.push(digit(a % 10)).last() == digit(a % 10));
        assert(front_b.push(digit(b % 10)).last() == digit(b % 10));
        lemma_decimal_injective(a / 10, b / 10);
        lemma_digit_injective(a % 10, b % 10);
    } else if a >= 10 {
        lemma_decimal_len(a / 10);
    } else {
        lemma_decimal_len(b / 10);
    }
}

/// Every numeral has a digit.
pub proof fn lemma_decimal_len(n: nat)
    ensures
        decimal(n).len() >= 1,
    decreases n,
{
    if n >= 10 {
        lemma_decimal_len(n / 10);
    }
}

fn digit_str(d: usize) -> (text: &'static str)
    requires
        d < 10,
    ensures
        text@ == seq![digit(d as nat)],
{
    proof {
        reveal_strlit("0123456789");
        reveal_strlit("0");
        reveal_strlit("1");
        reveal_strlit("2");
        reveal_strlit("3");
        reveal_strlit("4");
        reveal_strlit("5");
        reveal_strlit("6");
        reveal_strlit("7");
        reveal_strlit("8");
        reveal_strlit("9");
    }
    let text = if d == 0 {
        "0"
    } else if d == 1 {
        "1"
    } else if d == 2 {
        "2"
    } else if d == 3 {
        "3"
    } else if d == 4 {
        "4"
    } else if d == 5 {
        "5"
    } else if d == 6 {
        "6"
    } else if d == 7 {
        "7"
    } else if d == 8 {
        "8"
    } else {
        "9"
    };
    assert(text@ =~= seq![digit(d as nat)]);
    text
}

/// Appends the decimal numeral of `n` to `out`.
pub fn push_decimal(out: &mut String, n: usize)
    ensures
        final(out)@ == old(out)@ + decimal(n as nat),
    decreases n,
{
    if n >= 10 {
        push_decimal(out, n / 10);
    }
    out.append(digit_str(n % 10));
    assert(out@ =~= old(out)@ + decimal(n as nat));
}

} // verus!
