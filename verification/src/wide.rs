use vstd::prelude::*;
use vstd::utf8::is_scalar;

verus! {

broadcast use vstd::string::group_string_axioms;

/// The UTF-16 code units of one Unicode scalar value.
pub open spec fn utf16_units(c: char) -> Seq<u16> {
    let v = c as u32;
    if v < 0x10000 {
        seq![v as u16]
    } else {
        seq![(0xD800 + (v - 0x10000) / 0x400) as u16, (0xDC00 + (v - 0x10000) % 0x400) as u16]
    }
}

/// The UTF-16 encoding of a sequence of characters.
pub open spec fn encode_utf16(chars: Seq<char>) -> Seq<u16>
    decreases chars.len(),
{
    if chars.len() == 0 {
        Seq::empty()
    } else {
        encode_utf16(chars.drop_last()) + utf16_units(chars.last())
    }
}

/// Encodes a string as a NUL-terminated wide (UTF-16) string, the form the
/// wide-character Windows API functions take.
pub fn to_wide_nul(s: &str) -> (wide: Vec<u16>)
    ensures
        wide@ == encode_utf16(s@).push(0u16),
{
    let mut wide: Vec<u16> = Vec::new();
    for c in it: s.chars()
        invariant
            it.seq() == s@,
            wide@ == encode_utf16(s@.take(it.index() as int)),
    {
        assert(s@.take(it.index() + 1).drop_last() =~= s@.take(it.index() as int));
        let v: u32 = c as u32;
        if v < 0x10000 {
            wide.push(v as u16);
        } else {
            let rest: u32 = v - 0x10000;
            wide.push((0xD800 + rest / 0x400) as u16);
            wide.push((0xDC00 + rest % 0x400) as u16);
        }
    }
    assert(s@.take(s@.len() as int) =~= s@);
    wide.push(0);
    wide
}

/// The code units of a character that is not NUL are all non-zero.
proof fn lemma_units_nonzero(c: char)
    requires
        c != '\0',
    ensures
        forall|k: int| 0 <= k < utf16_units(c).len() ==> utf16_units(c)[k] != 0,
{
    let v = c as u32;
    assert(v != 0);
    if v < 0x10000 {
        assert((v as u16) as u32 == v);
    }
}

/// Encoding a string without NUL characters yields no zero code unit.
proof fn lemma_encode_no_zero(chars: Seq<char>)
    requires
        forall|i: int| 0 <= i < chars.len() ==> chars[i] != '\0',
    ensures
        forall|k: int| 0 <= k < encode_utf16(chars).len() ==> encode_utf16(chars)[k] != 0,
    decreases chars.len(),
{
    if chars.len() > 0 {
        let prefix = encode_utf16(chars.drop_last());
        let last = utf16_units(chars.last());
        lemma_encode_no_zero(chars.drop_last());
        lemma_units_nonzero(chars.last());
        assert forall|k: int| 0 <= k < encode_utf16(chars).len() implies encode_utf16(chars)[k]
            != 0 by {
            if k < prefix.len() {
                assert(encode_utf16(chars)[k] == prefix[k]);
            } else {
                assert(encode_utf16(chars)[k] == last[k - prefix.len()]);
            }
        }
    }
}

/// A wide string made from text without NUL characters holds exactly one zero
/// code unit, its last: a reader that stops at the first zero unit sees the
/// whole encoded text.
pub proof fn law_wide_nul_terminated_once(s: Seq<char>)
    requires
        forall|i: int| 0 <= i < s.len() ==> s[i] != '\0',
    ensures
        ({
            let w = encode_utf16(s).push(0u16);
            &&& w.last() == 0
            &&& forall|k: int| 0 <= k < w.len() - 1 ==> w[k] != 0
        }),
{
    lemma_encode_no_zero(s);
}

/// A character below U+10000 is one code unit, its own scalar value; a
/// character above is a surrogate pair, high then low, from which the scalar
/// value is recovered.
pub proof fn law_utf16_units(c: char)
    ensures
        (c as u32) < 0x10000 ==> utf16_units(c).len() == 1 && utf16_units(c)[0] as u32 == c as u32,
        (c as u32) >= 0x10000 ==> {
            let u = utf16_units(c);
            &&& u.len() == 2
            &&& 0xD800 <= u[0] < 0xDC00
            &&& 0xDC00 <= u[1] < 0xE000
            &&& 0x10000 + (u[0] - 0xD800) * 0x400 + (u[1] - 0xDC00) == c as u32
        },
{
    broadcast use vstd::utf8::char_is_scalar;

    let v = c as u32;
    assert(is_scalar(v));
    if v < 0x10000 {
        assert((v as u16) as u32 == v);
    } else {
        let r = (v - 0x10000) as int;
        assert(0 <= r / 0x400 < 0x400);
        assert(0 <= r % 0x400 < 0x400);
        assert(((0xD800 + r / 0x400) as u16) as int == 0xD800 + r / 0x400);
        assert(((0xDC00 + r % 0x400) as u16) as int == 0xDC00 + r % 0x400);
        assert(r == (r / 0x400) * 0x400 + r % 0x400);
    }
}

/// Encoding text piece by piece gives the encoding of the whole.
pub proof fn law_encode_utf16_concat(a: Seq<char>, b: Seq<char>)
    ensures
        encode_utf16(a + b) == encode_utf16(a) + encode_utf16(b),
    decreases b.len(),
{
    if b.len() == 0 {
        assert(a + b =~= a);
        assert(encode_utf16(a) + encode_utf16(b) =~= encode_utf16(a));
    } else {
        law_encode_utf16_concat(a, b.drop_last());
        assert((a + b).drop_last() =~= a + b.drop_last());
        assert((a + b).last() == b.last());
        assert(encode_utf16(a + b) =~= encode_utf16(a) + encode_utf16(b.drop_last()) + utf16_units(
            b.last(),
        ));
    }
}

/// Text with no character above U+FFFF (ASCII text among it) is encoded one
/// code unit per character, each unit the character's scalar value: the
/// wide string of ASCII text is its bytes widened, then a zero unit.
pub proof fn law_basic_plane_text_widened(s: Seq<char>)
    requires
        forall|i: int| 0 <= i < s.len() ==> (#[trigger] s[i] as u32) < 0x10000,
    ensures
        encode_utf16(s).len() == s.len(),
        forall|i: int| 0 <= i < s.len() ==> encode_utf16(s)[i] as u32 == #[trigger] s[i] as u32,
    decreases s.len(),
{
    if s.len() > 0 {
        let init = s.drop_last();
        assert forall|i: int| 0 <= i < init.len() implies (#[trigger] init[i] as u32) < 0x10000 by {
            assert(init[i] == s[i]);
        }
        law_basic_plane_text_widened(init);
        law_utf16_units(s.last());
        assert(s[s.len() - 1] as u32 == s.last() as u32);
        assert forall|i: int| 0 <= i < s.len() implies encode_utf16(s)[i] as u32
            == #[trigger] s[i] as u32 by {
            if i < init.len() {
                assert(encode_utf16(s)[i] == encode_utf16(init)[i]);
                assert(init[i] == s[i]);
            } else {
                assert(encode_utf16(s)[i] == utf16_units(s.last())[0]);
            }
        }
    }
}

} // verus!
