//! Base64 text, as the `base64` crate writes it.

use base64::Engine as _;
use vstd::prelude::*;

verus! {

/// The character of the standard alphabet for a value below sixty-four.
pub open spec fn sextet(value: int) -> char {
    if value < 26 {
        (0x41 + value) as char
    } else if value < 52 {
        (0x61 + (value - 26)) as char
    } else if value < 62 {
        (0x30 + (value - 52)) as char
    } else if value == 62 {
        '+'
    } else {
        '/'
    }
}

/// Bytes in base64 with the standard alphabet and padding: three bytes at a
/// time, as four groups of six bits; what is missing of the last three bytes is
/// zero bits and padding.
pub open spec fn base64_of(bytes: Seq<u8>) -> Seq<char>
    decreases bytes.len(),
{
    if bytes.len() == 0 {
        Seq::empty()
    } else {
        let a = bytes[0] as int;
        let b = if bytes.len() > 1 {
            bytes[1] as int
        } else {
            0
        };
        let c = if bytes.len() > 2 {
            bytes[2] as int
        } else {
            0
        };
        let third = if bytes.len() > 1 {
            sextet(b % 16 * 4 + c / 64)
        } else {
            '='
        };
        let fourth = if bytes.len() > 2 {
            sextet(c % 64)
        } else {
            '='
        };
        let group = seq![sextet(a / 4), sextet(a % 4 * 16 + b / 16), third, fourth];
        if bytes.len() > 3 {
            group + base64_of(bytes.skip(3))
        } else {
            group
        }
    }
}

/// Whether the base64 form of so many bytes can be held in memory.
pub open spec fn encodable(length: nat) -> bool {
    (length + 2) / 3 * 4 <= isize::MAX
}

/// Encodes bytes with `base64::engine::general_purpose::STANDARD`'s `encode`:
/// the result is their base64 form with the standard alphabet and padding. The
/// buffer that the crate allocates for it must not exceed what a vector can
/// hold.
#[verifier::external_body]
pub(crate) fn encode(bytes: Vec<u8>) -> (text: String)
    requires
        encodable(bytes@.len()),
    ensures
        text@ == base64_of(bytes@),
{
    base64::engine::general_purpose::STANDARD.encode(bytes)
}

/// Distinct values below sixty-four have distinct characters, and none of them
/// is the padding.
proof fn lemma_sextet_injective(first: int, second: int)
    requires
        0 <= first < 64,
        0 <= second < 64,
    ensures
        sextet(first) == sextet(second) ==> first == second,
        sextet(first) != '=',
{
}

/// The base64 form loses nothing: bytes with the same form are the same bytes.
pub proof fn law_base64_loses_nothing(first: Seq<u8>, second: Seq<u8>)
    requires
        base64_of(first) == base64_of(second),
    ensures
        first == second,
    decreases first.len(),
{
    lemma_base64_len(first);
    lemma_base64_len(second);
    if first.len() == 0 || second.len() == 0 {
        assert(first =~= second);
    } else {
        let form = base64_of(first);
        let (a, b, c) = (first[0] as int, byte_at(first, 1), byte_at(first, 2));
        let (d, e, f) = (second[0] as int, byte_at(second, 1), byte_at(second, 2));
        lemma_sextet_injective(a / 4, d / 4);
        lemma_sextet_injective(a % 4 * 16 + b / 16, d % 4 * 16 + e / 16);
        lemma_sextet_injective(b % 16 * 4 + c / 64, e % 16 * 4 + f / 64);
        lemma_sextet_injective(e % 16 * 4 + f / 64, b % 16 * 4 + c / 64);
        lemma_sextet_injective(c % 64, f % 64);
        lemma_sextet_injective(f % 64, c % 64);
        assert(form[0] == sextet(a / 4) && form[0] == sextet(d / 4));
        assert(form[1] == sextet(a % 4 * 16 + b / 16) && form[1] == sextet(d % 4 * 16 + e / 16));
        if first.len() > 1 {
            assert(form[2] == sextet(b % 16 * 4 + c / 64));
        }
        if second.len() > 1 {
            assert(form[2] == sextet(e % 16 * 4 + f / 64));
        }
        if first.len() > 2 {
            assert(form[3] == sextet(c % 64));
        }
        if second.len() > 2 {
            assert(form[3] == sextet(f % 64));
        }
        if first.len() > 3 {
            assert(form.skip(4) =~= base64_of(first.skip(3)));
            assert(form.skip(4) =~= base64_of(second.skip(3)));
            law_base64_loses_nothing(first.skip(3), second.skip(3));
            assert forall|i: int| 3 <= i < first.len() implies first[i] == second[i] by {
                assert(first.skip(3)[i - 3] == second.skip(3)[i - 3]);
            }
        }
        assert(first =~= second);
    }
}

spec fn byte_at(bytes: Seq<u8>, at: int) -> int {
    if at < bytes.len() {
        bytes[at] as int
    } else {
        0
    }
}

/// The base64 form has four characters for three bytes, or for what is left of
/// three.
pub proof fn lemma_base64_len(bytes: Seq<u8>)
    ensures
        base64_of(bytes).len() == (bytes.len() + 2) / 3 * 4,
    decreases bytes.len(),
{
    if bytes.len() > 3 {
        lemma_base64_len(bytes.skip(3));
    }
}

} // verus!
