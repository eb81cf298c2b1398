//! Null-terminated wide-character (UTF-16) encodings of text.
//!
//! Every text field and button label handed to the native dialog facility
//! travels as an owned, null-terminated buffer of 16-bit units. The
//! encoding of a character sequence is defined here as a spec function,
//! and [`encode_wide_nul`] produces exactly that encoding.

use vstd::prelude::*;

verus! {

/// The UTF-16 code units of one character: a single unit for characters
/// below `0x10000`, a surrogate pair for the rest.
pub open spec fn wide_units_of_char(c: char) -> Seq<u16> {
    let u = c as u32;
    if u < 0x10000 {
        seq![u as u16]
    } else {
        seq![
            (0xD800 + ((u - 0x10000) / 0x400)) as u16,
            (0xDC00 + ((u - 0x10000) % 0x400)) as u16,
        ]
    }
}

/// The UTF-16 encoding of a character sequence, without a terminator.
pub open spec fn wide_of(s: Seq<char>) -> Seq<u16>
    decreases s.len(),
{
    if s.len() == 0 {
        Seq::empty()
    } else {
        wide_units_of_char(s[0]) + wide_of(s.drop_first())
    }
}

/// The UTF-16 encoding of a character sequence, followed by one null unit.
/// This is the shape of every text buffer the native descriptor points at.
pub open spec fn wide_nul_of(s: Seq<char>) -> Seq<u16> {
    wide_of(s) + seq![0u16]
}

/// Appending a character to the source extends the encoding by that
/// character's units.
pub proof fn lemma_wide_of_push(s: Seq<char>, c: char)
    ensures
        wide_of(s.push(c)) == wide_of(s) + wide_units_of_char(c),
    decreases s.len(),
{
    if s.len() == 0 {
        assert(s.push(c)[0] == c);
        assert(s.push(c).drop_first() =~= Seq::<char>::empty());
        assert(wide_of(s.push(c)) == wide_units_of_char(c) + wide_of(Seq::<char>::empty()));
        assert(wide_of(s) =~= Seq::<u16>::empty());
        assert(wide_of(s.push(c)) =~= wide_of(s) + wide_units_of_char(c));
    } else {
        assert(s.push(c).drop_first() =~= s.drop_first().push(c));
        lemma_wide_of_push(s.drop_first(), c);
        assert(wide_of(s.push(c)) =~= wide_of(s) + wide_units_of_char(c));
    }
}

/// An empty text field encodes to the one-unit terminator buffer and
/// nothing else: the encoding is a function of the supplied text alone,
/// so an empty field can never pick up the content of any other buffer.
pub proof fn lemma_empty_text_encoding(s: Seq<char>)
    requires
        s.len() == 0,
    ensures
        wide_nul_of(s) =~= seq![0u16],
{
}

/// Encodes `s` as UTF-16 and appends the null terminator, yielding an
/// owned buffer whose contents are exactly `wide_nul_of(s@)`.
pub fn encode_wide_nul(s: &str) -> (r: Vec<u16>)
    ensures
        r@ == wide_nul_of(s@),
{
    let n = s.unicode_len();
    let mut r: Vec<u16> = Vec::new();
    let mut i: usize = 0;
    while i < n
        invariant
            i <= n,
            n == s@.len(),
            r@ == wide_of(s@.take(i as int)),
        decreases n - i,
    {
        let c = s.get_char(i);
        proof {
            vstd::utf8::char_is_scalar(c);
        }
        let u = c as u32;
        if u < 0x10000 {
            r.push(u as u16);
            proof {
                assert(r@ =~= wide_of(s@.take(i as int)) + wide_units_of_char(c));
            }
        } else {
            let v = u - 0x10000;
            assert(v / 0x400 < 0x400) by (nonlinear_arith)
                requires
                    v < 0x100000,
            ;
            r.push((0xD800 + (v / 0x400)) as u16);
            r.push((0xDC00 + (v % 0x400)) as u16);
            assert(r@ == wide_of(s@.take(i as int)) + wide_units_of_char(c)) by {
                assert(wide_of(s@.take(i as int)).push((0xD800 + (v / 0x400)) as u16).push(
                    (0xDC00 + (v % 0x400)) as u16,
                ) =~= wide_of(s@.take(i as int)) + wide_units_of_char(c));
            }
        }
        proof {
            assert(s@.take(i + 1 as int) =~= s@.take(i as int).push(s@[i as int]));
            lemma_wide_of_push(s@.take(i as int), c);
        }
        i = i + 1;
    }
    proof {
        assert(s@.take(n as int) =~= s@);
    }
    r.push(0u16);
    proof {
        assert(wide_of(s@).push(0u16) =~= wide_nul_of(s@));
    }
    r
}

} // verus!
