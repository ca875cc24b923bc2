//! The NMEA sentence checksum.
use vstd::prelude::*;
use vstd::string::StringSliceAdditionalSpecFns;

verus! {

/// The byte `$` that starts a sentence.
pub const DOLLAR: u8 = 36;

/// The byte `*` that ends the part of a sentence that the checksum covers.
pub const ASTERISK: u8 = 42;

/// XOR of the bytes before the first `*` (all of them if there is none).
pub open spec fn xor_until_star(s: Seq<u8>) -> u8
    decreases s.len(),
{
    if s.len() == 0 {
        0
    } else if s[0] == ASTERISK {
        0
    } else {
        s[0] ^ xor_until_star(s.drop_first())
    }
}

/// The NMEA checksum of a sentence's bytes: the XOR of the bytes after a
/// leading `$` (if any) and before the first `*` that follows.
pub open spec fn checksum_spec(s: Seq<u8>) -> u8 {
    if s.len() > 0 && s[0] == DOLLAR {
        xor_until_star(s.drop_first())
    } else {
        xor_until_star(s)
    }
}

proof fn lemma_xor_assoc(a: u8, b: u8, c: u8)
    ensures
        (a ^ b) ^ c == a ^ (b ^ c),
{
    assert((a ^ b) ^ c == a ^ (b ^ c)) by (bit_vector);
}

/// Calculate the NMEA checksum for a given sentence as a raw byte.
///
/// XORs all bytes between `$` and `*` (exclusive). A leading `$` and
/// anything from `*` onward are ignored.
pub fn calculate_checksum(sentence: &str) -> (cs: u8)
    ensures
        cs == checksum_spec(sentence.spec_bytes()),
{
    let bytes = sentence.as_bytes();
    let n = bytes.len();
    let start: usize = if n > 0 && bytes[0] == DOLLAR {
        1
    } else {
        0
    };
    let ghost target = xor_until_star(bytes@.subrange(start as int, n as int));
    proof {
        if start == 1 {
            assert(bytes@.drop_first() =~= bytes@.subrange(1, n as int));
        } else {
            assert(bytes@ =~= bytes@.subrange(0, n as int));
        }
        assert(0u8 ^ target == target) by (bit_vector);
    }
    let mut cs: u8 = 0;
    let mut i: usize = start;
    while i < n
        invariant
            n == bytes@.len(),
            start <= i <= n,
            target == xor_until_star(bytes@.subrange(start as int, n as int)),
            target == checksum_spec(sentence.spec_bytes()),
            cs ^ xor_until_star(bytes@.subrange(i as int, n as int)) == target,
        decreases n - i,
    {
        let byte = bytes[i];
        let ghost rest = bytes@.subrange(i as int, n as int);
        if byte == ASTERISK {
            proof {
                assert(xor_until_star(rest) == 0);
                assert(cs ^ 0u8 == cs) by (bit_vector);
            }
            return cs;
        }
        proof {
            assert(rest.drop_first() =~= bytes@.subrange(i + 1, n as int));
            lemma_xor_assoc(cs, byte, xor_until_star(rest.drop_first()));
        }
        cs = cs ^ byte;
        i = i + 1;
    }
    proof {
        assert(xor_until_star(bytes@.subrange(n as int, n as int)) == 0);
        assert(cs ^ 0u8 == cs) by (bit_vector);
    }
    cs
}

/// A leading `$` does not change the checksum of a sentence body that does
/// not itself start with `$`.
pub proof fn lemma_checksum_ignores_dollar(body: Seq<u8>)
    requires
        body.len() == 0 || body[0] != DOLLAR,
    ensures
        checksum_spec(seq![DOLLAR] + body) == checksum_spec(body),
{
    assert((seq![DOLLAR] + body).drop_first() =~= body);
}

proof fn lemma_xor_until_star_tail(body: Seq<u8>, tail: Seq<u8>)
    requires
        forall|i: int| 0 <= i < body.len() ==> body[i] != ASTERISK,
    ensures
        xor_until_star(body + seq![ASTERISK] + tail) == xor_until_star(body),
    decreases body.len(),
{
    if body.len() == 0 {
        assert(body + seq![ASTERISK] + tail =~= seq![ASTERISK] + tail);
    } else {
        lemma_xor_until_star_tail(body.drop_first(), tail);
        assert((body + seq![ASTERISK] + tail).drop_first() =~= body.drop_first() + seq![ASTERISK]
            + tail);
    }
}

/// Whatever follows a `*` does not change the checksum: a sentence with its
/// checksum field attached has the checksum of the sentence without it.
pub proof fn lemma_checksum_ignores_tail(body: Seq<u8>, tail: Seq<u8>)
    requires
        forall|i: int| 0 <= i < body.len() ==> body[i] != ASTERISK,
    ensures
        checksum_spec(body + seq![ASTERISK] + tail) == checksum_spec(body),
{
    let whole = body + seq![ASTERISK] + tail;
    if body.len() > 0 && body[0] == DOLLAR {
        assert(whole[0] == DOLLAR);
        assert(whole.drop_first() =~= body.drop_first() + seq![ASTERISK] + tail);
        lemma_xor_until_star_tail(body.drop_first(), tail);
    } else {
        if body.len() == 0 {
            assert(whole[0] == ASTERISK);
        } else {
            assert(whole[0] == body[0]);
        }
        lemma_xor_until_star_tail(body, tail);
    }
}

} // verus!
