//! The proof-of-work difficulty predicate.
//!
//! A digest is rendered as a bit string by concatenating, for each byte, the
//! minimal-width base-2 representation of its value (a byte of value 3
//! contributes "11", not "00000011"). A digest meets the difficulty exactly
//! when this rendering starts with the two characters "00". The non-padded
//! rendering is deliberate: every node applies the identical rule, so it is
//! self-consistent network-wide, and changing it (say, to fixed-width bytes)
//! would change which nonces are accepted.

use vstd::prelude::*;

verus! {

/// The character for a single bit value.
pub open spec fn bit_char(b: u8) -> char {
    if b == 0 {
        '0'
    } else {
        '1'
    }
}

/// Minimal-width base-2 rendering of one byte, most significant bit first.
pub open spec fn bits_of_byte(b: u8) -> Seq<char>
    decreases b,
{
    if b < 2 {
        seq![bit_char(b)]
    } else {
        bits_of_byte(b / 2).push(bit_char(b % 2))
    }
}

/// The bit rendering of a whole digest: the per-byte renderings, concatenated.
pub open spec fn bin_render(bytes: Seq<u8>) -> Seq<char>
    decreases bytes.len(),
{
    if bytes.len() == 0 {
        Seq::empty()
    } else {
        bits_of_byte(bytes.first()) + bin_render(bytes.drop_first())
    }
}

/// The difficulty predicate: the bit rendering starts with "00".
pub open spec fn meets_difficulty(digest: Seq<u8>) -> bool {
    &&& bin_render(digest).len() >= 2
    &&& bin_render(digest)[0] == '0'
    &&& bin_render(digest)[1] == '0'
}

/// A byte renders to at least one character, and the first character is '0'
/// exactly when the byte is zero (a nonzero byte's minimal-width rendering
/// starts with its leading 1 bit).
proof fn lemma_bits_shape(b: u8)
    ensures
        bits_of_byte(b).len() >= 1,
        bits_of_byte(b)[0] == (if b == 0 {
            '0'
        } else {
            '1'
        }),
    decreases b,
{
    if b >= 2 {
        lemma_bits_shape(b / 2);
    }
}

/// The rendering-prefix rule, characterized over the raw bytes: a digest
/// meets the difficulty exactly when it has at least two bytes and the first
/// two are both zero.
pub proof fn lemma_difficulty_bytes(digest: Seq<u8>)
    ensures
        meets_difficulty(digest) <==> (digest.len() >= 2 && digest[0] == 0 && digest[1] == 0),
{
    if digest.len() == 0 {
    } else if digest.len() == 1 {
        lemma_bits_shape(digest[0]);
        assert(digest.drop_first().len() == 0);
        assert(bin_render(digest) == bits_of_byte(digest[0]) + bin_render(digest.drop_first()));
        assert(bin_render(digest) =~= bits_of_byte(digest[0]));
        if digest[0] == 0 {
            assert(bits_of_byte(0u8) =~= seq!['0']);
            assert(bin_render(digest).len() == 1);
        }
    } else {
        let rest = digest.drop_first();
        lemma_bits_shape(digest[0]);
        lemma_bits_shape(digest[1]);
        assert(rest.first() == digest[1]);
        assert(bin_render(rest) == bits_of_byte(digest[1]) + bin_render(rest.drop_first()));
        assert(bin_render(digest) == bits_of_byte(digest[0]) + bin_render(rest));
        if digest[0] == 0 {
            assert(bits_of_byte(0u8) =~= seq!['0']);
            assert(bin_render(digest)[0] == '0');
            assert(bin_render(digest)[1] == bin_render(rest)[0]);
            assert(bin_render(rest)[0] == bits_of_byte(digest[1])[0]);
        } else {
            assert(bin_render(digest)[0] == bits_of_byte(digest[0])[0]);
        }
    }
}

/// Appending a byte appends its rendering.
pub proof fn lemma_bin_render_push(bytes: Seq<u8>, x: u8)
    ensures
        bin_render(bytes.push(x)) == bin_render(bytes) + bits_of_byte(x),
    decreases bytes.len(),
{
    if bytes.len() == 0 {
        assert(bytes.push(x).drop_first() =~= Seq::<u8>::empty());
        assert(bytes.push(x).first() == x);
        assert(bin_render(bytes.push(x)) == bits_of_byte(x) + bin_render(Seq::<u8>::empty()));
        assert(bits_of_byte(x) + bin_render(Seq::<u8>::empty()) =~= bits_of_byte(x));
        assert(bin_render(bytes) + bits_of_byte(x) =~= bits_of_byte(x));
    } else {
        assert(bytes.push(x).drop_first() =~= bytes.drop_first().push(x));
        assert(bytes.push(x).first() == bytes.first());
        lemma_bin_render_push(bytes.drop_first(), x);
        assert(bin_render(bytes.push(x)) == bits_of_byte(bytes.first()) + (bin_render(
            bytes.drop_first(),
        ) + bits_of_byte(x)));
        assert(bits_of_byte(bytes.first()) + (bin_render(bytes.drop_first()) + bits_of_byte(x))
            =~= (bits_of_byte(bytes.first()) + bin_render(bytes.drop_first())) + bits_of_byte(x));
    }
}

/// Appends the minimal-width base-2 rendering of one byte to `out`.
fn push_bits_of_byte(out: &mut String, b: u8)
    ensures
        final(out)@ == old(out)@ + bits_of_byte(b),
    decreases b,
{
    proof {
        reveal_strlit("0");
        reveal_strlit("1");
    }
    if b < 2 {
        if b == 0 {
            out.append("0");
        } else {
            out.append("1");
        }
        assert(old(out)@ + bits_of_byte(b) =~= out@);
    } else {
        push_bits_of_byte(out, b / 2);
        if b % 2 == 0 {
            out.append("0");
        } else {
            out.append("1");
        }
        assert(old(out)@ + bits_of_byte(b) =~= out@);
    }
}

/// Renders a digest as the concatenation of each byte's minimal-width base-2
/// representation.
pub fn hash_to_binary_representation(hash: &Vec<u8>) -> (r: String)
    ensures
        r@ == bin_render(hash@),
{
    let mut result = String::new();
    let mut i: usize = 0;
    while i < hash.len()
        invariant
            i <= hash.len(),
            result@ == bin_render(hash@.take(i as int)),
        decreases hash.len() - i,
    {
        proof {
            assert(hash@.take(i + 1 as int) =~= hash@.take(i as int).push(hash@[i as int]));
            lemma_bin_render_push(hash@.take(i as int), hash@[i as int]);
        }
        push_bits_of_byte(&mut result, hash[i]);
        i = i + 1;
    }
    proof {
        assert(hash@.take(hash@.len() as int) =~= hash@);
    }
    result
}

/// Whether a digest meets the difficulty, decided directly on the bytes and
/// proved equal to the rendering-prefix rule.
pub fn hash_meets_difficulty(digest: &Vec<u8>) -> (r: bool)
    ensures
        r == meets_difficulty(digest@),
{
    proof {
        lemma_difficulty_bytes(digest@);
    }
    digest.len() >= 2 && digest[0] == 0 && digest[1] == 0
}

} // verus!
