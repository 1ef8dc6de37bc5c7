use vstd::prelude::*;

verus! {

/// Number of bytes in a destination address.
pub const ADDRESS_SIZE: usize = 16;

/// A destination address on the mesh: the sixteen bytes of its hash.
#[derive(Clone, Copy, Debug, PartialEq, Eq)]
pub struct Address {
    pub bytes: [u8; 16],
}

/// Whether `c` is a hexadecimal digit, in either case.
pub open spec fn is_hex_digit(c: char) -> bool {
    ('0' <= c && c <= '9') || ('a' <= c && c <= 'f') || ('A' <= c && c <= 'F')
}

/// The value of a hexadecimal digit.
pub open spec fn hex_value(c: char) -> u8 {
    if '0' <= c && c <= '9' {
        (c as u32 - '0' as u32) as u8
    } else if 'a' <= c && c <= 'f' {
        (c as u32 - 'a' as u32 + 10) as u8
    } else {
        (c as u32 - 'A' as u32 + 10) as u8
    }
}

/// The lower-case hexadecimal digit for a value below sixteen.
pub open spec fn hex_char(v: u8) -> char {
    if v < 10 {
        (v + '0' as u8) as char
    } else {
        (v - 10 + 'a' as u8) as char
    }
}

/// Text that reads as an address: at least two hexadecimal digits per byte.
pub open spec fn is_address_text(s: Seq<char>) -> bool {
    &&& s.len() >= 2 * ADDRESS_SIZE
    &&& forall|i: int| 0 <= i < 2 * ADDRESS_SIZE ==> #[trigger] is_hex_digit(s[i])
}

/// The bytes that address text denotes: byte `i` from digits `2i` and `2i + 1`.
pub open spec fn address_bytes_of(s: Seq<char>) -> Seq<u8> {
    Seq::new(
        ADDRESS_SIZE as nat,
        |i: int| (hex_value(s[2 * i]) * 16 + hex_value(s[2 * i + 1])) as u8,
    )
}

/// Lower-case hexadecimal text of a byte sequence, two digits per byte.
pub open spec fn hex_text(b: Seq<u8>) -> Seq<char> {
    Seq::new(
        2 * b.len(),
        |i: int| if i % 2 == 0 { hex_char(b[i / 2] / 16) } else { hex_char(b[i / 2] % 16) },
    )
}

/// Relies on `String::push`: appends one character at the end.
#[verifier::external_body]
pub(crate) fn push_char(s: &mut String, c: char)
    ensures
        final(s)@ == old(s)@.push(c),
{
    s.push(c);
}

/// Reads one hexadecimal digit.
fn digit_value(c: char) -> (r: u8)
    requires
        is_hex_digit(c),
    ensures
        r == hex_value(c),
        r < 16,
{
    if '0' <= c && c <= '9' {
        (c as u32 - '0' as u32) as u8
    } else if 'a' <= c && c <= 'f' {
        (c as u32 - 'a' as u32 + 10) as u8
    } else {
        (c as u32 - 'A' as u32 + 10) as u8
    }
}

/// Writes one lower-case hexadecimal digit.
fn digit_char(v: u8) -> (r: char)
    requires
        v < 16,
    ensures
        r == hex_char(v),
{
    if v < 10 {
        (v + '0' as u8) as char
    } else {
        (v - 10 + 'a' as u8) as char
    }
}

impl Address {
    /// The address whose bytes are all zero, used where none is known.
    pub fn empty() -> (r: Address)
        ensures
            r.bytes@ == Seq::new(ADDRESS_SIZE as nat, |i: int| 0u8),
    {
        let r = Address { bytes: [0u8; 16] };
        assert(r.bytes@ =~= Seq::new(ADDRESS_SIZE as nat, |i: int| 0u8));
        r
    }

    /// Reads an address from its hexadecimal text; `None` where the text
    /// does not begin with thirty-two hexadecimal digits.
    pub fn from_hex(s: &str) -> (r: Option<Address>)
        ensures
            r is Some <==> is_address_text(s@),
            r matches Some(a) ==> a.bytes@ == address_bytes_of(s@),
    {
        let n = s.unicode_len();
        if n < 2 * ADDRESS_SIZE {
            return None;
        }
        let mut bytes = [0u8; 16];
        let mut i: usize = 0;
        while i < ADDRESS_SIZE
            invariant
                i <= ADDRESS_SIZE,
                n == s@.len(),
                n >= 2 * ADDRESS_SIZE,
                bytes@.len() == ADDRESS_SIZE,
                forall|j: int| 0 <= j < 2 * i ==> #[trigger] is_hex_digit(s@[j]),
                forall|j: int| 0 <= j < i ==> bytes@[j] == #[trigger] address_bytes_of(s@)[j],
            decreases ADDRESS_SIZE - i,
        {
            let hi = s.get_char(2 * i);
            let lo = s.get_char(2 * i + 1);
            if !(('0' <= hi && hi <= '9') || ('a' <= hi && hi <= 'f') || ('A' <= hi && hi <= 'F')) {
                assert(!is_hex_digit(s@[2 * i as int]));
                return None;
            }
            if !(('0' <= lo && lo <= '9') || ('a' <= lo && lo <= 'f') || ('A' <= lo && lo <= 'F')) {
                assert(!is_hex_digit(s@[2 * i + 1]));
                return None;
            }
            let h = digit_value(hi);
            let l = digit_value(lo);
            bytes[i] = h * 16 + l;
            i = i + 1;
        }
        let r = Address { bytes };
        assert(r.bytes@ =~= address_bytes_of(s@));
        Some(r)
    }

    /// The address as lower-case hexadecimal text, two digits per byte.
    pub fn to_hex(&self) -> (r: String)
        ensures
            r@ == hex_text(self.bytes@),
    {
        let mut r = String::new();
        let mut i: usize = 0;
        while i < ADDRESS_SIZE
            invariant
                i <= ADDRESS_SIZE,
                self.bytes@.len() == ADDRESS_SIZE,
                r@ =~= hex_text(self.bytes@).subrange(0, 2 * i as int),
            decreases ADDRESS_SIZE - i,
        {
            let b = self.bytes[i];
            push_char(&mut r, digit_char(b / 16));
            push_char(&mut r, digit_char(b % 16));
            i = i + 1;
        }
        assert(r@ =~= hex_text(self.bytes@));
        r
    }
}

} // verus!
