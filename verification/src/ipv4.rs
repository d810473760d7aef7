//! IPv4 addresses in dotted-decimal text.
//!
//! An address has exactly one text: four decimal numbers from 0 to 255,
//! without leading zeros, with a dot between them. The parser accepts that
//! text and nothing else.

use vstd::prelude::*;
use vstd::string::StringSliceAdditionalSpecFns;

verus! {

/// The byte of the dot between two numbers.
pub const DOT: u8 = 46;

/// The byte of the digit zero.
pub const ZERO: u8 = 48;

/// An IPv4 address, by its four numbers from left to right.
#[derive(Debug, Clone, Copy, PartialEq, Eq, Structural)]
pub struct Ipv4Addr {
    pub a: u8,
    pub b: u8,
    pub c: u8,
    pub d: u8,
}

/// Whether `byte` is a decimal digit.
spec fn is_digit(byte: u8) -> bool {
    ZERO <= byte <= ZERO + 9
}

/// The byte of the decimal digit `value`.
pub open spec fn digit(value: int) -> u8 {
    (ZERO + value) as u8
}

/// The decimal text of `value`, without leading zeros.
pub open spec fn octet_text(value: u8) -> Seq<u8> {
    if value < 10 {
        seq![digit(value as int)]
    } else if value < 100 {
        seq![digit(value as int / 10), digit(value as int % 10)]
    } else {
        seq![digit(value as int / 100), digit(value as int / 10 % 10), digit(value as int % 10)]
    }
}

/// The dotted-decimal text of `addr`.
pub open spec fn address_text(addr: Ipv4Addr) -> Seq<u8> {
    octet_text(addr.a) + seq![DOT] + octet_text(addr.b) + seq![DOT] + octet_text(
        addr.c,
    ) + seq![DOT] + octet_text(addr.d)
}

/// The address that `text` is the dotted-decimal text of, if it is one.
pub open spec fn address_of(text: Seq<u8>) -> Option<Ipv4Addr> {
    if exists|addr: Ipv4Addr| text == #[trigger] address_text(addr) {
        Some(choose|addr: Ipv4Addr| text == #[trigger] address_text(addr))
    } else {
        None
    }
}

/// Whether `text` holds `part` from position `start` on.
spec fn holds_at(text: Seq<u8>, start: int, part: Seq<u8>) -> bool {
    &&& 0 <= start
    &&& start + part.len() <= text.len()
    &&& text.subrange(start, start + part.len()) == part
}

/// Whether a number that ends before position `end` of `text` ends there:
/// the text ends, or what follows is no digit.
spec fn ends_number(text: Seq<u8>, end: int) -> bool {
    end == text.len() || (0 <= end < text.len() && !is_digit(text[end]))
}

/// Where the parts of the text of `addr` lie in `text`.
spec fn laid_out(text: Seq<u8>, addr: Ipv4Addr) -> bool {
    let a = octet_text(addr.a);
    let b = octet_text(addr.b);
    let c = octet_text(addr.c);
    let d = octet_text(addr.d);
    let la = a.len() as int;
    let lb = b.len() as int;
    let lc = c.len() as int;
    let ld = d.len() as int;
    &&& text.len() == la + lb + lc + ld + 3
    &&& holds_at(text, 0, a)
    &&& text[la] == DOT
    &&& holds_at(text, la + 1, b)
    &&& text[la + lb + 1] == DOT
    &&& holds_at(text, la + lb + 2, c)
    &&& text[la + lb + lc + 2] == DOT
    &&& holds_at(text, la + lb + lc + 3, d)
}

/// The value of the digit at `index` of `text`, if there is a digit.
spec fn digit_at(text: Seq<u8>, index: int) -> Option<int> {
    if 0 <= index < text.len() && is_digit(text[index]) {
        Some(text[index] - ZERO)
    } else {
        None
    }
}

/// The number that a reader finds at `start`, and the position after it. A
/// zero stands alone; another number runs on for up to three digits.
spec fn octet_at(text: Seq<u8>, start: int) -> Option<(u8, int)> {
    match digit_at(text, start) {
        None => None,
        Some(first) => if first == 0 {
            Some((0u8, start + 1))
        } else {
            match digit_at(text, start + 1) {
                None => Some((first as u8, start + 1)),
                Some(second) => match digit_at(text, start + 2) {
                    None => Some(((first * 10 + second) as u8, start + 2)),
                    Some(third) => if first * 100 + second * 10 + third > 255 {
                        None
                    } else {
                        Some(((first * 100 + second * 10 + third) as u8, start + 3))
                    },
                },
            }
        },
    }
}

/// Whether `text` has a dot at `index`.
spec fn dot_at(text: Seq<u8>, index: int) -> bool {
    0 <= index < text.len() && text[index] == DOT
}

/// The address that a reader finds in `text` from left to right.
spec fn address_in(text: Seq<u8>) -> Option<Ipv4Addr> {
    match octet_at(text, 0) {
        Some((a, end_a)) if dot_at(text, end_a) => match octet_at(text, end_a + 1) {
            Some((b, end_b)) if dot_at(text, end_b) => match octet_at(text, end_b + 1) {
                Some((c, end_c)) if dot_at(text, end_c) => match octet_at(text, end_c + 1) {
                    Some((d, end_d)) if end_d == text.len() => Some(Ipv4Addr { a, b, c, d }),
                    _ => None,
                },
                _ => None,
            },
            _ => None,
        },
        _ => None,
    }
}

/// What a reader finds at `start` is the text of the number it returns.
proof fn lemma_octet_at_sound(text: Seq<u8>, start: int)
    requires
        0 <= start,
    ensures
        octet_at(text, start) matches Some((value, end)) ==> end == start + octet_text(value).len()
            && holds_at(text, start, octet_text(value)),
{
    match octet_at(text, start) {
        Some((value, end)) => {
            assert(text.subrange(start, end) =~= octet_text(value));
        },
        None => {},
    }
}

/// A reader finds the number whose text stands at `start` and ends there.
proof fn lemma_octet_at_complete(text: Seq<u8>, start: int, value: u8)
    requires
        holds_at(text, start, octet_text(value)),
        ends_number(text, start + octet_text(value).len()),
    ensures
        octet_at(text, start) == Some((value, start + octet_text(value).len())),
{
    let part = octet_text(value);
    assert forall|i: int| 0 <= i < part.len() implies text[start + i] == part[i] by {
        assert(text.subrange(start, start + part.len())[i] == text[start + i]);
    }
    assert(text[start + 0] == part[0]);
    if value >= 10 {
        assert(text[start + 1] == part[1]);
    }
    if value >= 100 {
        assert(text[start + 2] == part[2]);
    }
}

/// The text of an address is laid out as its parts say.
proof fn lemma_address_layout(addr: Ipv4Addr)
    ensures
        laid_out(address_text(addr), addr),
{
    let text = address_text(addr);
    let a = octet_text(addr.a);
    let b = octet_text(addr.b);
    let c = octet_text(addr.c);
    let d = octet_text(addr.d);
    let la = a.len() as int;
    let lb = b.len() as int;
    let lc = c.len() as int;
    let ld = d.len() as int;
    assert(text.subrange(0, la) =~= a);
    assert(text.subrange(la + 1, la + 1 + lb) =~= b);
    assert(text.subrange(la + lb + 2, la + lb + 2 + lc) =~= c);
    assert(text.subrange(la + lb + lc + 3, la + lb + lc + 3 + ld) =~= d);
}

/// A text that is laid out as the parts of `addr` say is the text of `addr`.
proof fn lemma_layout_is_text(text: Seq<u8>, addr: Ipv4Addr)
    requires
        laid_out(text, addr),
    ensures
        text == address_text(addr),
{
    let a = octet_text(addr.a);
    let b = octet_text(addr.b);
    let c = octet_text(addr.c);
    let d = octet_text(addr.d);
    let la = a.len() as int;
    let lb = b.len() as int;
    let lc = c.len() as int;
    let ld = d.len() as int;
    let whole = address_text(addr);
    assert(whole.len() == text.len());
    assert forall|i: int| 0 <= i < text.len() implies text[i] == whole[i] by {
        if i < la {
            assert(text.subrange(0, la)[i] == text[i]);
        } else if la + 1 <= i < la + 1 + lb {
            assert(text.subrange(la + 1, la + 1 + lb)[i - la - 1] == text[i]);
        } else if la + lb + 2 <= i < la + lb + 2 + lc {
            assert(text.subrange(la + lb + 2, la + lb + 2 + lc)[i - la - lb - 2] == text[i]);
        } else if la + lb + lc + 3 <= i {
            assert(text.subrange(la + lb + lc + 3, la + lb + lc + 3 + ld)[i - la - lb - lc - 3]
                == text[i]);
        }
    }
    assert(text =~= whole);
}

/// What a reader finds in a text is the address that the text stands for.
proof fn lemma_address_in_sound(text: Seq<u8>)
    ensures
        address_in(text) matches Some(addr) ==> text == address_text(addr),
{
    if let Some(addr) = address_in(text) {
        lemma_octet_at_sound(text, 0);
        let end_a = octet_at(text, 0).unwrap().1;
        lemma_octet_at_sound(text, end_a + 1);
        let end_b = octet_at(text, end_a + 1).unwrap().1;
        lemma_octet_at_sound(text, end_b + 1);
        let end_c = octet_at(text, end_b + 1).unwrap().1;
        lemma_octet_at_sound(text, end_c + 1);
        assert(laid_out(text, addr));
        lemma_layout_is_text(text, addr);
    }
}

/// A reader finds each address in its text.
proof fn lemma_address_in_complete(addr: Ipv4Addr)
    ensures
        address_in(address_text(addr)) == Some(addr),
{
    let text = address_text(addr);
    lemma_address_layout(addr);
    let la = octet_text(addr.a).len() as int;
    let lb = octet_text(addr.b).len() as int;
    let lc = octet_text(addr.c).len() as int;
    lemma_octet_at_complete(text, 0, addr.a);
    lemma_octet_at_complete(text, la + 1, addr.b);
    lemma_octet_at_complete(text, la + lb + 2, addr.c);
    lemma_octet_at_complete(text, la + lb + lc + 3, addr.d);
}

fn read_digit(bytes: &[u8], index: usize) -> (value: Option<u8>)
    ensures
        value matches Some(v) ==> digit_at(bytes@, index as int) == Some(v as int) && v < 10
            && index < bytes@.len(),
        value is None ==> digit_at(bytes@, index as int) is None,
{
    if index < bytes.len() && bytes[index] >= ZERO && bytes[index] <= ZERO + 9 {
        Some(bytes[index] - ZERO)
    } else {
        None
    }
}

fn read_octet(bytes: &[u8], start: usize) -> (found: Option<(u8, usize)>)
    requires
        start <= bytes@.len(),
    ensures
        found matches Some((value, end)) ==> octet_at(bytes@, start as int) == Some(
            (value, end as int),
        ) && end <= bytes@.len(),
        found is None ==> octet_at(bytes@, start as int) is None,
{
    if start >= bytes.len() {
        return None;
    }
    let first = match read_digit(bytes, start) {
        Some(digit) => digit,
        None => {
            return None;
        },
    };
    if first == 0 {
        return Some((0, start + 1));
    }
    let second = match read_digit(bytes, start + 1) {
        Some(digit) => digit,
        None => {
            return Some((first, start + 1));
        },
    };
    let third = match read_digit(bytes, start + 2) {
        Some(digit) => digit,
        None => {
            return Some((first * 10 + second, start + 2));
        },
    };
    let wide: u16 = (first as u16) * 100 + (second as u16) * 10 + (third as u16);
    if wide > 255 {
        return None;
    }
    Some((wide as u8, start + 3))
}

fn read_dot(bytes: &[u8], index: usize) -> (dot: bool)
    ensures
        dot == dot_at(bytes@, index as int),
{
    index < bytes.len() && bytes[index] == DOT
}

fn read_address(bytes: &[u8]) -> (addr: Option<Ipv4Addr>)
    ensures
        addr == address_in(bytes@),
{
    let (a, end_a) = match read_octet(bytes, 0) {
        Some(found) => found,
        None => {
            return None;
        },
    };
    if !read_dot(bytes, end_a) {
        return None;
    }
    let (b, end_b) = match read_octet(bytes, end_a + 1) {
        Some(found) => found,
        None => {
            return None;
        },
    };
    if !read_dot(bytes, end_b) {
        return None;
    }
    let (c, end_c) = match read_octet(bytes, end_b + 1) {
        Some(found) => found,
        None => {
            return None;
        },
    };
    if !read_dot(bytes, end_c) {
        return None;
    }
    let (d, end_d) = match read_octet(bytes, end_c + 1) {
        Some(found) => found,
        None => {
            return None;
        },
    };
    if end_d != bytes.len() {
        return None;
    }
    Some(Ipv4Addr { a, b, c, d })
}

/// No two addresses share a text: the text of an address stands for that
/// address alone.
pub proof fn lemma_address_of_text(addr: Ipv4Addr)
    ensures
        address_of(address_text(addr)) == Some(addr),
{
    let found = address_of(address_text(addr))->0;
    lemma_address_in_complete(addr);
    lemma_address_in_complete(found);
}

/// What a reader finds in a text is the address that the text stands for,
/// and it finds nothing only where the text stands for none.
proof fn lemma_address_in_is_address_of(text: Seq<u8>)
    ensures
        address_in(text) == address_of(text),
{
    lemma_address_in_sound(text);
    if let Some(addr) = address_of(text) {
        lemma_address_in_complete(addr);
    }
}

/// Reads an address from its dotted-decimal text. The text is accepted if
/// and only if it is the text of an address, and the result is that address.
pub fn parse_ipv4(text: &str) -> (addr: Option<Ipv4Addr>)
    ensures
        addr == address_of(text.spec_bytes()),
        addr matches Some(a) ==> text.spec_bytes() == address_text(a),
        forall|a: Ipv4Addr| text.spec_bytes() == #[trigger] address_text(a) ==> addr == Some(a),
{
    let addr = read_address(text.as_bytes());
    proof {
        lemma_address_in_sound(text.spec_bytes());
        lemma_address_in_is_address_of(text.spec_bytes());
        assert forall|a: Ipv4Addr| text.spec_bytes() == #[trigger] address_text(a) implies addr
            == Some(a) by {
            lemma_address_in_complete(a);
        }
    }
    addr
}

} // verus!
