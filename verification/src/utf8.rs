//! Lossy UTF-8 sanitisation.
//!
//! Request bytes arrive from the peer and may hold anything, so before they
//! are logged they are rewritten into well-formed UTF-8: each well-formed
//! sequence is kept as it is, and each maximal prefix of an ill-formed
//! sequence is replaced by the encoding of U+FFFD, the replacement character.

use vstd::prelude::*;

verus! {

/// A continuation byte, `0b10xx_xxxx`.
pub open spec fn is_cont(b: u8) -> bool {
    0x80 <= b && b <= 0xBF
}

/// The second bytes allowed after a three-byte lead: the ranges that exclude
/// overlong encodings (lead `0xE0`) and surrogates (lead `0xED`).
pub open spec fn lead3_second_ok(b0: u8, b1: u8) -> bool {
    ||| (b0 == 0xE0 && 0xA0 <= b1 && b1 <= 0xBF)
    ||| (0xE1 <= b0 && b0 <= 0xEC && is_cont(b1))
    ||| (b0 == 0xED && 0x80 <= b1 && b1 <= 0x9F)
    ||| (0xEE <= b0 && b0 <= 0xEF && is_cont(b1))
}

/// The second bytes allowed after a four-byte lead: the ranges that exclude
/// overlong encodings (lead `0xF0`) and code points past U+10FFFF (lead `0xF4`).
pub open spec fn lead4_second_ok(b0: u8, b1: u8) -> bool {
    ||| (b0 == 0xF0 && 0x90 <= b1 && b1 <= 0xBF)
    ||| (0xF1 <= b0 && b0 <= 0xF3 && is_cont(b1))
    ||| (b0 == 0xF4 && 0x80 <= b1 && b1 <= 0x8F)
}

/// The length of the well-formed UTF-8 sequence at the front of `s`,
/// or 0 when the front is ill-formed.
pub open spec fn well_formed_len(s: Seq<u8>) -> int {
    if s.len() >= 1 && s[0] <= 0x7F {
        1
    } else if s.len() >= 2 && 0xC2 <= s[0] && s[0] <= 0xDF && is_cont(s[1]) {
        2
    } else if s.len() >= 3 && lead3_second_ok(s[0], s[1]) && is_cont(s[2]) {
        3
    } else if s.len() >= 4 && lead4_second_ok(s[0], s[1]) && is_cont(s[2]) && is_cont(s[3]) {
        4
    } else {
        0
    }
}

/// How many bytes an ill-formed front covers: the longest prefix of `s` that
/// is also a prefix of some well-formed sequence, or a single byte when not
/// even the first byte can open one.  One replacement character stands for
/// exactly these bytes.
pub open spec fn ill_formed_len(s: Seq<u8>) -> int
    recommends
        s.len() > 0,
        well_formed_len(s) == 0,
{
    if 0xE0 <= s[0] && s[0] <= 0xEF {
        if s.len() >= 2 && lead3_second_ok(s[0], s[1]) {
            2
        } else {
            1
        }
    } else if 0xF0 <= s[0] && s[0] <= 0xF4 {
        if s.len() >= 2 && lead4_second_ok(s[0], s[1]) {
            if s.len() >= 3 && is_cont(s[2]) {
                3
            } else {
                2
            }
        } else {
            1
        }
    } else {
        1
    }
}

/// The UTF-8 encoding of U+FFFD, the replacement character.
pub open spec fn replacement() -> Seq<u8> {
    seq![0xEFu8, 0xBFu8, 0xBDu8]
}

/// What sanitising a byte sequence yields: well-formed sequences pass through
/// unchanged, and each maximal ill-formed prefix becomes one replacement
/// character.
pub open spec fn sanitize(s: Seq<u8>) -> Seq<u8>
    decreases s.len(),
{
    if s.len() == 0 {
        Seq::empty()
    } else if well_formed_len(s) > 0 {
        s.subrange(0, well_formed_len(s)) + sanitize(s.skip(well_formed_len(s)))
    } else {
        replacement() + sanitize(s.skip(ill_formed_len(s)))
    }
}

/// Whether `s` is well-formed UTF-8 from end to end.
pub open spec fn is_utf8(s: Seq<u8>) -> bool
    decreases s.len(),
{
    s.len() == 0 || (well_formed_len(s) > 0 && is_utf8(s.skip(well_formed_len(s))))
}

/// How far the front of `s` reaches: the length of its well-formed sequence,
/// or of its maximal ill-formed prefix.
pub open spec fn front_len(s: Seq<u8>) -> int {
    if well_formed_len(s) > 0 {
        well_formed_len(s)
    } else {
        ill_formed_len(s)
    }
}

/// Sanitising well-formed input changes nothing.
pub proof fn lemma_utf8_passes_through(s: Seq<u8>)
    requires
        is_utf8(s),
    ensures
        sanitize(s) == s,
    decreases s.len(),
{
    if s.len() != 0 {
        let k = well_formed_len(s);
        lemma_utf8_passes_through(s.skip(k));
        assert(sanitize(s) =~= s);
    }
}

/// A sequence that is exactly one well-formed UTF-8 sequence, followed by
/// well-formed UTF-8, is well-formed from end to end.
proof fn lemma_utf8_prepend(a: Seq<u8>, b: Seq<u8>)
    requires
        a.len() > 0,
        well_formed_len(a) == a.len(),
        is_utf8(b),
    ensures
        is_utf8(a + b),
{
    let c = a + b;
    assert(forall|j: int| 0 <= j < a.len() ==> c[j] == a[j]);
    assert(well_formed_len(c) == a.len());
    assert(c.skip(a.len() as int) =~= b);
}

/// Sanitising always yields well-formed UTF-8, whatever the input held.
pub proof fn lemma_sanitize_is_utf8(s: Seq<u8>)
    ensures
        is_utf8(sanitize(s)),
    decreases s.len(),
{
    if s.len() != 0 {
        if well_formed_len(s) > 0 {
            let k = well_formed_len(s);
            let a = s.subrange(0, k);
            assert(forall|j: int| 0 <= j < k ==> a[j] == s[j]);
            assert(well_formed_len(a) == k);
            lemma_sanitize_is_utf8(s.skip(k));
            lemma_utf8_prepend(a, sanitize(s.skip(k)));
        } else {
            assert(well_formed_len(replacement()) == 3);
            lemma_sanitize_is_utf8(s.skip(ill_formed_len(s)));
            lemma_utf8_prepend(replacement(), sanitize(s.skip(ill_formed_len(s))));
        }
    }
}

/// Classifies the front of a byte slice from position `i` on: returns the
/// length of its well-formed sequence, or, when it is ill-formed, the length
/// of its maximal ill-formed prefix.
fn classify_front(input: &[u8], i: usize) -> (r: (bool, usize))
    requires
        i < input@.len(),
    ensures
        r.0 <==> well_formed_len(input@.skip(i as int)) > 0,
        r.1 == front_len(input@.skip(i as int)),
        1 <= r.1 <= input@.len() - i,
{
    let ghost rest = input@.skip(i as int);
    let n: usize = input.len() - i;
    let b0: u8 = input[i];
    assert(rest[0] == input@[i as int]);
    if b0 <= 0x7F {
        (true, 1)
    } else if 0xC2 <= b0 && b0 <= 0xDF {
        if n >= 2 && is_cont_byte(input[i + 1]) {
            assert(rest[1] == input@[i + 1]);
            (true, 2)
        } else {
            assert(well_formed_len(rest) == 0);
            (false, 1)
        }
    } else if 0xE0 <= b0 && b0 <= 0xEF {
        let second_ok = n >= 2 && lead3_second(b0, input[i + 1]);
        proof {
            if n >= 2 {
                assert(rest[1] == input@[i + 1]);
            }
        }
        if second_ok && n >= 3 && is_cont_byte(input[i + 2]) {
            assert(rest[2] == input@[i + 2]);
            (true, 3)
        } else if second_ok {
            assert(well_formed_len(rest) == 0);
            (false, 2)
        } else {
            assert(well_formed_len(rest) == 0);
            (false, 1)
        }
    } else if 0xF0 <= b0 && b0 <= 0xF4 {
        let second_ok = n >= 2 && lead4_second(b0, input[i + 1]);
        proof {
            if n >= 2 {
                assert(rest[1] == input@[i + 1]);
            }
        }
        if second_ok && n >= 3 && is_cont_byte(input[i + 2]) {
            assert(rest[2] == input@[i + 2]);
            if n >= 4 && is_cont_byte(input[i + 3]) {
                assert(rest[3] == input@[i + 3]);
                (true, 4)
            } else {
                assert(well_formed_len(rest) == 0);
                (false, 3)
            }
        } else if second_ok {
            assert(well_formed_len(rest) == 0);
            (false, 2)
        } else {
            assert(well_formed_len(rest) == 0);
            (false, 1)
        }
    } else {
        assert(well_formed_len(rest) == 0);
        (false, 1)
    }
}

/// Executable twin of `is_cont`.
fn is_cont_byte(b: u8) -> (r: bool)
    ensures
        r == is_cont(b),
{
    0x80 <= b && b <= 0xBF
}

/// Executable twin of `lead3_second_ok`.
fn lead3_second(b0: u8, b1: u8) -> (r: bool)
    ensures
        r == lead3_second_ok(b0, b1),
{
    (b0 == 0xE0 && 0xA0 <= b1 && b1 <= 0xBF) || (0xE1 <= b0 && b0 <= 0xEC && is_cont_byte(b1)) || (
    b0 == 0xED && 0x80 <= b1 && b1 <= 0x9F) || (0xEE <= b0 && b0 <= 0xEF && is_cont_byte(b1))
}

/// Executable twin of `lead4_second_ok`.
fn lead4_second(b0: u8, b1: u8) -> (r: bool)
    ensures
        r == lead4_second_ok(b0, b1),
{
    (b0 == 0xF0 && 0x90 <= b1 && b1 <= 0xBF) || (0xF1 <= b0 && b0 <= 0xF3 && is_cont_byte(b1)) || (
    b0 == 0xF4 && 0x80 <= b1 && b1 <= 0x8F)
}

/// Rewrites arbitrary bytes into well-formed UTF-8: well-formed sequences are
/// kept, each maximal ill-formed prefix becomes one replacement character.
/// Accepts every input; nothing is rejected.
pub fn sanitize_bytes(input: &[u8]) -> (out: Vec<u8>)
    ensures
        out@ == sanitize(input@),
{
    let mut out: Vec<u8> = Vec::new();
    let mut i: usize = 0;
    let n_bytes: usize = input.len();
    proof {
        assert(n_bytes == input@.len());
        assert(input@.skip(0) =~= input@);
        assert(out@ + sanitize(input@) =~= sanitize(input@));
    }
    while i < input.len()
        invariant
            i <= input@.len(),
            input@.len() <= usize::MAX,
            sanitize(input@) == out@ + sanitize(input@.skip(i as int)),
        decreases input@.len() - i,
    {
        let ghost rest = input@.skip(i as int);
        let ghost out_before = out@;
        let (well_formed, len) = classify_front(input, i);
        if well_formed {
            let mut j: usize = 0;
            while j < len
                invariant
                    i + len <= input@.len(),
                    input@.len() <= usize::MAX,
                    j <= len,
                    out@ == out_before + input@.subrange(i as int, i + j),
                decreases len - j,
            {
                out.push(input[i + j]);
                assert(out@ =~= out_before + input@.subrange(i as int, i + j + 1));
                j = j + 1;
            }
            proof {
                assert(rest.subrange(0, len as int) =~= input@.subrange(i as int, i + len));
            }
        } else {
            out.push(0xEF);
            out.push(0xBF);
            out.push(0xBD);
            assert(out@ =~= out_before + replacement());
        }
        proof {
            assert(rest.skip(len as int) =~= input@.skip(i + len));
        }
        i = i + len;
    }
    proof {
        assert(sanitize(input@.skip(i as int)) =~= Seq::<u8>::empty());
        assert(out@ =~= sanitize(input@));
    }
    out
}

} // verus!
