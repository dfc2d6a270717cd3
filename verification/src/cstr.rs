use vstd::prelude::*;
use vstd::string::StringSliceAdditionalSpecFns;

verus! {

/// True when no byte of `bytes` is zero.
pub open spec fn has_no_nul(bytes: Seq<u8>) -> bool {
    forall|i: int| 0 <= i < bytes.len() ==> bytes[i] != 0
}

/// True when `position` is the index of the first zero byte of `bytes`.
pub open spec fn is_first_nul(bytes: Seq<u8>, position: int) -> bool {
    &&& 0 <= position < bytes.len()
    &&& bytes[position] == 0
    &&& has_no_nul(bytes.take(position))
}

/// A string could not become a C string: it holds a NUL byte.
#[derive(Debug, Clone, Copy, PartialEq, Eq, Structural)]
pub struct NulError {
    /// Index of the first NUL byte in the string's UTF-8 bytes.
    pub position: usize,
}

/// The bytes of a C string made from `s`: its UTF-8 bytes followed by one NUL
/// byte. Text that holds a NUL byte is refused, with the position of the first.
pub fn c_string(s: &str) -> (r: Result<Vec<u8>, NulError>)
    ensures
        r is Ok <==> has_no_nul(s.spec_bytes()),
        r matches Ok(bytes) ==> bytes@ == s.spec_bytes().push(0u8),
        r matches Err(e) ==> is_first_nul(s.spec_bytes(), e.position as int),
{
    let bytes = s.as_bytes();
    let mut out: Vec<u8> = Vec::new();
    let mut i: usize = 0;
    while i < bytes.len()
        invariant
            bytes@ == s.spec_bytes(),
            i <= bytes@.len(),
            out@ == bytes@.take(i as int),
            has_no_nul(bytes@.take(i as int)),
        decreases bytes@.len() - i,
    {
        let b: u8 = bytes[i];
        if b == 0 {
            assert(!has_no_nul(bytes@));
            return Err(NulError { position: i });
        }
        out.push(b);
        i = i + 1;
        assert(out@ == bytes@.take(i as int));
        assert(has_no_nul(bytes@.take(i as int)));
    }
    assert(bytes@.take(i as int) =~= bytes@);
    out.push(0);
    Ok(out)
}

/// A C string made by [`c_string`] holds exactly one NUL byte, its last, and
/// the bytes before it are the text's UTF-8 bytes: reading it back up to the
/// first NUL gives the text again.
pub proof fn law_c_string_terminated_once(text: Seq<u8>)
    requires
        has_no_nul(text),
    ensures
        ({
            let c = text.push(0u8);
            &&& is_first_nul(c, text.len() as int)
            &&& c.take(text.len() as int) == text
        }),
{
    let c = text.push(0u8);
    assert(c.take(text.len() as int) =~= text);
}

} // verus!
