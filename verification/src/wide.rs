use vstd::prelude::*;
use vstd::string::StrSliceExecFns;

verus! {

/// The UTF-16 encoding of one character: the code unit itself below
/// `0x10000`, a surrogate pair above.
pub open spec fn utf16_units_of_char(c: char) -> Seq<u16> {
    if (c as int) < 0x10000 {
        seq![c as u16]
    } else {
        seq![
            (0xD800 + ((c as int) - 0x10000) / 0x400) as u16,
            (0xDC00 + ((c as int) - 0x10000) % 0x400) as u16,
        ]
    }
}

/// The UTF-16 encoding of a sequence of characters.
pub open spec fn utf16_units_of(s: Seq<char>) -> Seq<u16>
    decreases s.len(),
{
    if s.len() == 0 {
        Seq::empty()
    } else {
        utf16_units_of_char(s[0]) + utf16_units_of(s.drop_first())
    }
}

/// A member name as it crosses the driver boundary: its UTF-16 code units
/// followed by a terminating nul.
pub open spec fn wide_name(s: Seq<char>) -> Seq<u16> {
    utf16_units_of(s).push(0u16)
}

/// Appending one character appends its code units.
proof fn lemma_utf16_units_push(s: Seq<char>, c: char)
    ensures
        utf16_units_of(s.push(c)) == utf16_units_of(s) + utf16_units_of_char(c),
    decreases s.len(),
{
    assert(s.push(c)[0] == if s.len() == 0 { c } else { s[0] });
    if s.len() == 0 {
        assert(s.push(c).drop_first() =~= Seq::<char>::empty());
        assert(utf16_units_of(s.push(c)) == utf16_units_of_char(c) + utf16_units_of(
            Seq::<char>::empty(),
        ));
        assert(utf16_units_of(s.push(c)) =~= utf16_units_of(s) + utf16_units_of_char(c));
    } else {
        lemma_utf16_units_push(s.drop_first(), c);
        assert(s.push(c).drop_first() =~= s.drop_first().push(c));
        assert(utf16_units_of(s.push(c)) == utf16_units_of_char(s[0]) + utf16_units_of(
            s.drop_first().push(c),
        ));
        assert(utf16_units_of(s.push(c)) =~= utf16_units_of(s) + utf16_units_of_char(c));
    }
}

/// Encodes a member name for the driver boundary: UTF-16 code units with a
/// terminating nul.
pub fn to_utf16(s: &str) -> (r: Vec<u16>)
    ensures
        r@ == wide_name(s@),
{
    let len = s.unicode_len();
    let mut r: Vec<u16> = Vec::new();
    let mut i: usize = 0;
    while i < len
        invariant
            i <= len,
            len == s@.len(),
            r@ == utf16_units_of(s@.take(i as int)),
        decreases len - i,
    {
        let c = s.get_char(i);
        proof {
            assert(s@.take(i as int).push(c) =~= s@.take(i as int + 1));
            lemma_utf16_units_push(s@.take(i as int), c);
        }
        let u = c as u32;
        if u < 0x10000 {
            r.push(u as u16);
        } else {
            let v = u - 0x10000;
            r.push(0xD800u16 + (v / 0x400) as u16);
            r.push(0xDC00u16 + (v % 0x400) as u16);
        }
        i = i + 1;
    }
    proof {
        assert(s@.take(len as int) =~= s@);
    }
    r.push(0u16);
    r
}

} // verus!
