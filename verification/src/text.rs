//! Comparing string slices and splitting them into words, stated over their
//! character sequences.

use vstd::prelude::*;
use vstd::std_specs::iter::IteratorSpec;
use vstd::utf8::{
    char_is_scalar, char_u32_cast, decode_utf8_split, encode_scalar, encode_utf8,
    encode_utf8_decode_utf8, encode_utf8_first_scalar, encode_utf8_valid_utf8, is_char_boundary,
    is_char_boundary_iff_not_is_continuation_byte, is_char_boundary_start_end_of_seq,
    leading_bits_width_1, leading_byte_width_1, pop_first_scalar, valid_utf8,
};

verus! {

/// The byte that encodes the space.
const SPACE: u8 = 0x20;

/// `prefix` is an initial segment of `s`.
pub open spec fn is_prefix_of(prefix: Seq<char>, s: Seq<char>) -> bool {
    prefix.len() <= s.len() && s.subrange(0, prefix.len() as int) == prefix
}

/// Tests whether `s` begins with `prefix`, character by character.
pub fn starts_with(s: &str, prefix: &str) -> (r: bool)
    ensures
        r == is_prefix_of(prefix@, s@),
{
    let mut rest = s.chars();
    let mut wanted = prefix.chars();
    let ghost mut seen: int = 0;
    loop
        invariant
            0 <= seen <= s@.len(),
            seen <= prefix@.len(),
            rest.obeys_prophetic_iter_laws(),
            wanted.obeys_prophetic_iter_laws(),
            rest.remaining() == s@.subrange(seen, s@.len() as int),
            wanted.remaining() == prefix@.subrange(seen, prefix@.len() as int),
            s@.subrange(0, seen) == prefix@.subrange(0, seen),
        decreases prefix@.len() - seen,
    {
        let want = wanted.next();
        match want {
            None => {
                assert(prefix@.subrange(0, seen) == prefix@);
                return true;
            },
            Some(w) => {
                let got = rest.next();
                match got {
                    None => {
                        return false;
                    },
                    Some(g) => {
                        if g != w {
                            assert(s@[seen] != prefix@[seen]);
                            assert(is_prefix_of(prefix@, s@) ==> s@.subrange(0, prefix@.len() as int)[seen] == prefix@[seen]);
                            return false;
                        }
                        proof {
                            assert(s@.subrange(0, seen + 1) == s@.subrange(0, seen).push(s@[seen]));
                            assert(prefix@.subrange(0, seen + 1) == prefix@.subrange(0, seen).push(prefix@[seen]));
                            seen = seen + 1;
                        }
                    },
                }
            },
        }
    }
}

/// Tests whether `a` and `b` hold the same characters.
pub fn str_eq(a: &str, b: &str) -> (r: bool)
    ensures
        r == (a@ == b@),
{
    let mut left = a.chars();
    let mut right = b.chars();
    let ghost mut seen: int = 0;
    loop
        invariant
            0 <= seen <= a@.len(),
            seen <= b@.len(),
            left.obeys_prophetic_iter_laws(),
            right.obeys_prophetic_iter_laws(),
            left.remaining() == a@.subrange(seen, a@.len() as int),
            right.remaining() == b@.subrange(seen, b@.len() as int),
            a@.subrange(0, seen) == b@.subrange(0, seen),
        decreases a@.len() - seen,
    {
        let x = left.next();
        let y = right.next();
        match (x, y) {
            (None, None) => {
                assert(a@.subrange(0, seen) == a@);
                assert(b@.subrange(0, seen) == b@);
                return true;
            },
            (Some(c), Some(d)) => {
                if c != d {
                    assert(a@[seen] != b@[seen]);
                    return false;
                }
                proof {
                    assert(a@.subrange(0, seen + 1) == a@.subrange(0, seen).push(a@[seen]));
                    assert(b@.subrange(0, seen + 1) == b@.subrange(0, seen).push(b@[seen]));
                    seen = seen + 1;
                }
            },
            _ => {
                assert(a@.len() != b@.len());
                return false;
            },
        }
    }
}

/// The number of characters of `s` before its first space; the length of `s`
/// where it has none.
pub open spec fn first_space(s: Seq<char>) -> int
    decreases s.len(),
{
    if s.len() == 0 || s[0] == ' ' {
        0
    } else {
        1 + first_space(s.drop_first())
    }
}

/// The words of `s`: its maximal runs of characters other than the space, in
/// the order in which they stand, none of them empty.
pub open spec fn words(s: Seq<char>) -> Seq<Seq<char>>
    decreases s.len(),
{
    if s.len() == 0 {
        Seq::empty()
    } else {
        let n = first_space(s);
        let rest = if 0 <= n < s.len() {
            words(s.skip(n + 1))
        } else {
            Seq::empty()
        };
        if n == 0 {
            rest
        } else {
            seq![s.take(n)] + rest
        }
    }
}

/// Where the first `k` characters of `s` are no spaces and a space or the end
/// follows them, the first space stands at `k`.
pub proof fn lemma_first_space(s: Seq<char>, k: int)
    requires
        0 <= k <= s.len(),
        forall|j: int| 0 <= j < k ==> s[j] != ' ',
        k == s.len() || s[k] == ' ',
    ensures
        first_space(s) == k,
    decreases k,
{
    if k > 0 {
        let tail = s.drop_first();
        assert forall|j: int| 0 <= j < k - 1 implies tail[j] != ' ' by {
            assert(tail[j] == s[j + 1]);
        }
        lemma_first_space(tail, k - 1);
    }
}

/// Where a text holds a space, its UTF-8 encoding holds the byte of the
/// space; the position of such a byte is returned.
proof fn lemma_space_byte(chars: Seq<char>, i: int) -> (j: int)
    requires
        0 <= i < chars.len(),
        chars[i] == ' ',
    ensures
        0 <= j < encode_utf8(chars).len(),
        encode_utf8(chars)[j] == SPACE,
    decreases chars.len(),
{
    let first = encode_scalar(chars[0] as u32);
    char_is_scalar(chars[0]);
    if i == 0 {
        assert(leading_byte_width_1(0x20u32) == 0x20u8) by (bit_vector);
        0
    } else {
        let tail = chars.drop_first();
        let k = lemma_space_byte(tail, i - 1);
        first.len() + k
    }
}

/// Where the UTF-8 encoding of a text begins with the byte of the space, the
/// text begins with a space, and the bytes after the first encode the rest
/// of the text.
proof fn lemma_leading_space(chars: Seq<char>)
    requires
        encode_utf8(chars).len() > 0,
        encode_utf8(chars)[0] == SPACE,
    ensures
        chars.len() > 0,
        chars[0] == ' ',
        encode_utf8(chars.drop_first()) == encode_utf8(chars).subrange(
            1,
            encode_utf8(chars).len() as int,
        ),
        is_char_boundary(encode_utf8(chars), 1),
{
    let bytes = encode_utf8(chars);
    encode_utf8_first_scalar(chars);
    encode_utf8_valid_utf8(chars);
    assert(leading_bits_width_1(0x20u8) == 0x20u32) by (bit_vector);
    char_u32_cast(chars[0], 0x20u32);
    char_u32_cast(' ', 0x20u32);
    assert(encode_utf8(chars.drop_first()) =~= bytes.subrange(1, bytes.len() as int));
    assert(is_char_boundary(bytes, 1)) by {
        reveal_with_fuel(is_char_boundary, 2);
        assert(valid_utf8(pop_first_scalar(bytes)));
    }
}

/// Cuts off the beginning of `rest` up to its first space.  Returns that
/// beginning and, where there is a space, what follows the space.
fn cut_word(rest: &str) -> (r: (&str, Option<&str>))
    ensures
        0 <= first_space(rest@) <= rest@.len(),
        r.0@ == rest@.take(first_space(rest@)),
        match r.1 {
            Some(after) => first_space(rest@) < rest@.len() && after@ == rest@.skip(
                first_space(rest@) + 1,
            ),
            None => first_space(rest@) == rest@.len(),
        },
{
    let bytes = rest.as_bytes();
    let mut at: usize = 0;
    while at < bytes.len() && bytes[at] != SPACE
        invariant
            at <= bytes@.len(),
            forall|j: int| 0 <= j < at ==> bytes@[j] != SPACE,
        decreases bytes@.len() - at,
    {
        at += 1;
    }
    proof {
        encode_utf8_valid_utf8(rest@);
        if at < bytes@.len() {
            is_char_boundary_iff_not_is_continuation_byte(bytes@, at as int);
        } else {
            is_char_boundary_start_end_of_seq(bytes@);
        }
    }
    let (head, tail) = rest.split_at(at);
    proof {
        let front = bytes@.subrange(0, at as int);
        let back = bytes@.subrange(at as int, bytes@.len() as int);
        assert(encode_utf8(head@) == front);
        assert(encode_utf8(tail@) == back);
        encode_utf8_decode_utf8(rest@);
        encode_utf8_decode_utf8(head@);
        encode_utf8_decode_utf8(tail@);
        decode_utf8_split(bytes@, at as int);
        assert(rest@ == head@ + tail@);
        assert forall|i: int| 0 <= i < head@.len() implies head@[i] != ' ' by {
            if head@[i] == ' ' {
                let j = lemma_space_byte(head@, i);
                assert(front[j] == bytes@[j]);
            }
        }
        assert forall|i: int| 0 <= i < head@.len() implies rest@[i] != ' ' by {
            assert(rest@[i] == head@[i]);
        }
        assert(rest@.take(head@.len() as int) == head@);
    }
    if at < bytes.len() {
        proof {
            assert(encode_utf8(tail@)[0] == bytes@[at as int]);
            lemma_leading_space(tail@);
            assert(rest@[head@.len() as int] == tail@[0]);
            lemma_first_space(rest@, head@.len() as int);
        }
        let (_, after) = tail.split_at(1);
        proof {
            encode_utf8_decode_utf8(after@);
            encode_utf8_decode_utf8(tail@.drop_first());
            assert(after@ == tail@.drop_first());
            assert(rest@.skip(head@.len() as int + 1) == tail@.drop_first());
        }
        (head, Some(after))
    } else {
        proof {
            assert(encode_utf8(tail@).len() == 0);
            assert(tail@.len() == 0) by {
                if tail@.len() > 0 {
                    encode_utf8_first_scalar(tail@);
                }
            }
            assert(rest@ == head@);
            lemma_first_space(rest@, rest@.len() as int);
        }
        (head, None)
    }
}

/// Splits `s` at its spaces and drops the empty pieces.
pub fn split_words(s: &str) -> (r: Vec<String>)
    ensures
        r.deep_view() == words(s@),
{
    let mut out: Vec<String> = Vec::new();
    let mut rest = s;
    proof {
        assert(out.deep_view() + words(s@) == words(s@));
    }
    loop
        invariant
            words(s@) == out.deep_view() + words(rest@),
        decreases rest@.len(),
    {
        let ghost before = out.deep_view();
        let ghost n = first_space(rest@);
        let (word, after) = cut_word(rest);
        if !word.is_empty() {
            out.push(word.to_owned());
            assert(out.deep_view() == before.push(rest@.take(n)));
        }
        match after {
            None => {
                proof {
                    if n == 0 {
                        assert(before + Seq::<Seq<char>>::empty() == before);
                    } else {
                        assert(before + (seq![rest@.take(n)] + Seq::<Seq<char>>::empty())
                            == before.push(rest@.take(n)));
                    }
                }
                return out;
            },
            Some(after) => {
                proof {
                    if n != 0 {
                        assert(before + (seq![rest@.take(n)] + words(rest@.skip(n + 1)))
                            == before.push(rest@.take(n)) + words(rest@.skip(n + 1)));
                    }
                }
                rest = after;
            },
        }
    }
}

} // verus!
