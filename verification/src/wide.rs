use vstd::prelude::*;

verus! {

/// The UTF-16 code units that encode one character: the code point
/// itself where one unit suffices, else the surrogate pair.
pub open spec fn spec_utf16_units(c: char) -> Seq<u16> {
    if (c as u32) < 0x10000 {
        seq![(c as u32) as u16]
    } else {
        seq![
            (0xD800 + ((c as u32) - 0x10000) / 0x400) as u16,
            (0xDC00 + ((c as u32) - 0x10000) % 0x400) as u16,
        ]
    }
}

/// The UTF-16 encoding of a character sequence, without a terminator.
pub open spec fn spec_utf16(s: Seq<char>) -> Seq<u16>
    decreases s.len(),
{
    if s.len() == 0 {
        Seq::empty()
    } else {
        spec_utf16(s.drop_last()) + spec_utf16_units(s.last())
    }
}

/// A nul-terminated wide (UTF-16) string, in the layout the Windows
/// wide-character APIs expect.
#[derive(Debug, Default)]
pub struct WideString(pub Vec<u16>);

impl WideString {
    /// The wide string as the nul-terminated code-unit slice a native
    /// wide-string pointer parameter points at.
    pub fn as_pwstr(&self) -> (r: &[u16])
        ensures
            r@ == self.0@,
    {
        self.0.as_slice()
    }
}

/// Encoding into a nul-terminated wide string.
pub trait ToWide: View<V = Seq<char>> {
    /// The UTF-16 encoding of this text with a terminating nul
    /// appended.
    fn to_wide(&self) -> (r: WideString)
        ensures
            r.0@ == spec_utf16(self@).push(0u16),
    ;
}

/// Appends the code units that encode `c`.
fn push_utf16_units(units: &mut Vec<u16>, c: char)
    ensures
        final(units)@ == old(units)@ + spec_utf16_units(c),
{
    let cp = c as u32;
    if cp < 0x10000 {
        units.push(cp as u16);
    } else {
        let v = cp - 0x10000;
        let hi: u32 = 0xD800 + v / 0x400;
        let lo: u32 = 0xDC00 + v % 0x400;
        units.push(hi as u16);
        units.push(lo as u16);
    }
}

/// Encodes the characters of `s`, with the terminating nul appended.
fn encode_wide(s: &str) -> (r: WideString)
    ensures
        r.0@ == spec_utf16(s@).push(0u16),
{
    let n = s.unicode_len();
    let mut units: Vec<u16> = Vec::new();
    let mut i: usize = 0;
    while i < n
        invariant
            i <= n,
            n == s@.len(),
            units@ == spec_utf16(s@.take(i as int)),
        decreases n - i,
    {
        let c = s.get_char(i);
        push_utf16_units(&mut units, c);
        i = i + 1;
        proof {
            assert(s@.take(i as int).drop_last() =~= s@.take(i as int - 1));
            assert(s@.take(i as int).last() == s@[i as int - 1]);
        }
    }
    proof {
        assert(s@.take(n as int) =~= s@);
    }
    units.push(0);
    WideString(units)
}

impl ToWide for &str {
    fn to_wide(&self) -> (r: WideString) {
        encode_wide(self)
    }
}

impl ToWide for String {
    fn to_wide(&self) -> (r: WideString) {
        encode_wide(self.as_str())
    }
}

} // verus!
