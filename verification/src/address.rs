//! Bluetooth hardware addresses.
//!
//! An address is six octets, written canonically as six colon-separated
//! pairs of hexadecimal digits, upper case, e.g. `AA:BB:CC:DD:EE:FF`.
//! Parsing accepts either case for the digits and rejects every other
//! shape; rendering always produces the canonical upper-case form.

use vstd::prelude::*;

verus! {

/// A parsed Bluetooth hardware address: six octets, most significant first.
#[derive(Clone, Copy, Debug)]
pub struct Address {
    pub octets: [u8; 6],
}

impl View for Address {
    type V = Seq<u8>;

    open spec fn view(&self) -> Seq<u8> {
        self.octets@
    }
}

/// True when `c` is an ASCII hexadecimal digit, either case.
pub open spec fn is_hex_digit(c: char) -> bool {
    ||| '0' <= c && c <= '9'
    ||| 'a' <= c && c <= 'f'
    ||| 'A' <= c && c <= 'F'
}

/// The value of the hexadecimal digit `c`; zero when `c` is no digit.
pub open spec fn hex_val(c: char) -> u8 {
    if '0' <= c && c <= '9' {
        (c as u32 - '0' as u32) as u8
    } else if 'a' <= c && c <= 'f' {
        (c as u32 - 'a' as u32 + 10) as u8
    } else if 'A' <= c && c <= 'F' {
        (c as u32 - 'A' as u32 + 10) as u8
    } else {
        0
    }
}

/// The upper-case hexadecimal digit for a value below sixteen.
pub open spec fn hex_char(v: u8) -> char {
    if v < 10 {
        (v + 48) as char
    } else {
        (v + 55) as char
    }
}

/// The positions of the five colons in the canonical 17-character form.
pub open spec fn is_sep_index(i: int) -> bool {
    i == 2 || i == 5 || i == 8 || i == 11 || i == 14
}

/// True when `s` has the shape of an address string: exactly 17 characters,
/// colons at the separator positions, hexadecimal digits everywhere else.
pub open spec fn valid_address_chars(s: Seq<char>) -> bool {
    &&& s.len() == 17
    &&& forall|i: int| 0 <= i < 17 && is_sep_index(i) ==> #[trigger] s[i] == ':'
    &&& forall|i: int| 0 <= i < 17 && !is_sep_index(i) ==> is_hex_digit(#[trigger] s[i])
}

/// The `k`-th octet denoted by a valid address string.
pub open spec fn octet_at(s: Seq<char>, k: int) -> u8
    recommends
        0 <= k < 6,
{
    (hex_val(s[3 * k]) * 16 + hex_val(s[3 * k + 1])) as u8
}

/// The six octets denoted by a valid address string.
pub open spec fn address_octets(s: Seq<char>) -> Seq<u8> {
    Seq::new(6, |k: int| octet_at(s, k))
}

/// The canonical upper-case rendering of six octets.
pub open spec fn canonical_chars(octets: Seq<u8>) -> Seq<char>
    recommends
        octets.len() == 6,
{
    seq![
        hex_char(octets[0] / 16), hex_char(octets[0] % 16), ':',
        hex_char(octets[1] / 16), hex_char(octets[1] % 16), ':',
        hex_char(octets[2] / 16), hex_char(octets[2] % 16), ':',
        hex_char(octets[3] / 16), hex_char(octets[3] % 16), ':',
        hex_char(octets[4] / 16), hex_char(octets[4] % 16), ':',
        hex_char(octets[5] / 16), hex_char(octets[5] % 16),
    ]
}

/// True when `s` is a valid address string in canonical form: no digit is
/// lower case.
pub open spec fn is_canonical_chars(s: Seq<char>) -> bool {
    &&& valid_address_chars(s)
    &&& forall|i: int| 0 <= i < 17 && !is_sep_index(i) ==> !('a' <= #[trigger] s[i] && s[i] <= 'f')
}

/// The value of the hexadecimal digit `c`, or `None` when `c` is no digit.
pub fn hex_digit_value(c: char) -> (r: Option<u8>)
    ensures
        r is Some <==> is_hex_digit(c),
        r matches Some(v) ==> v == hex_val(c) && v < 16,
{
    let n = c as u32;
    if 48 <= n && n <= 57 {
        Some((n - 48) as u8)
    } else if 97 <= n && n <= 102 {
        Some((n - 97 + 10) as u8)
    } else if 65 <= n && n <= 70 {
        Some((n - 65 + 10) as u8)
    } else {
        None
    }
}

fn parse_octet(s: &str, i: usize) -> (r: Option<u8>)
    requires
        i < 16,
        i + 1 < s@.len(),
    ensures
        r is Some <==> is_hex_digit(s@[i as int]) && is_hex_digit(s@[i + 1]),
        r matches Some(v) ==> v == (hex_val(s@[i as int]) * 16 + hex_val(s@[i + 1])) as u8,
{
    let hi = match hex_digit_value(s.get_char(i)) {
        Some(v) => v,
        None => {
            return None;
        },
    };
    let lo = match hex_digit_value(s.get_char(i + 1)) {
        Some(v) => v,
        None => {
            return None;
        },
    };
    Some(hi * 16 + lo)
}

impl Address {
    /// Parse an address string of the canonical shape, either case.
    /// Returns `None` exactly on inputs of any other shape.
    pub fn parse(s: &str) -> (r: Option<Address>)
        ensures
            r is Some <==> valid_address_chars(s@),
            r matches Some(a) ==> a@ == address_octets(s@),
    {
        let len = s.unicode_len();
        if len != 17 {
            return None;
        }
        if s.get_char(2) != ':' || s.get_char(5) != ':' || s.get_char(8) != ':'
            || s.get_char(11) != ':' || s.get_char(14) != ':' {
            return None;
        }
        let b0 = match parse_octet(s, 0) {
            Some(v) => v,
            None => {
                return None;
            },
        };
        let b1 = match parse_octet(s, 3) {
            Some(v) => v,
            None => {
                return None;
            },
        };
        let b2 = match parse_octet(s, 6) {
            Some(v) => v,
            None => {
                return None;
            },
        };
        let b3 = match parse_octet(s, 9) {
            Some(v) => v,
            None => {
                return None;
            },
        };
        let b4 = match parse_octet(s, 12) {
            Some(v) => v,
            None => {
                return None;
            },
        };
        let b5 = match parse_octet(s, 15) {
            Some(v) => v,
            None => {
                return None;
            },
        };
        let a = Address { octets: [b0, b1, b2, b3, b4, b5] };
        proof {
            assert(valid_address_chars(s@)) by {
                assert forall|i: int| 0 <= i < 17 && !is_sep_index(i) implies is_hex_digit(
                    s@[i],
                ) by {
                    assert(is_hex_digit(s@[0]) && is_hex_digit(s@[1]));
                    assert(is_hex_digit(s@[3]) && is_hex_digit(s@[4]));
                    assert(is_hex_digit(s@[6]) && is_hex_digit(s@[7]));
                    assert(is_hex_digit(s@[9]) && is_hex_digit(s@[10]));
                    assert(is_hex_digit(s@[12]) && is_hex_digit(s@[13]));
                    assert(is_hex_digit(s@[15]) && is_hex_digit(s@[16]));
                }
            }
            assert(a@ =~= address_octets(s@));
        }
        Some(a)
    }

    /// Render the address in its canonical upper-case colon-separated form.
    pub fn to_canonical_string(&self) -> (r: String)
        ensures
            r@ == canonical_chars(self@),
    {
        let mut out = String::new();
        push_octet(&mut out, self.octets[0]);
        push_colon(&mut out);
        push_octet(&mut out, self.octets[1]);
        push_colon(&mut out);
        push_octet(&mut out, self.octets[2]);
        push_colon(&mut out);
        push_octet(&mut out, self.octets[3]);
        push_colon(&mut out);
        push_octet(&mut out, self.octets[4]);
        push_colon(&mut out);
        push_octet(&mut out, self.octets[5]);
        proof {
            assert(out@ =~= canonical_chars(self@));
        }
        out
    }
}

/// An upper-case digit below sixteen survives the round trip through its
/// character form.
pub proof fn lemma_hex_char_of_val(v: u8)
    requires
        v < 16,
    ensures
        is_hex_digit(hex_char(v)),
        !('a' <= hex_char(v) && hex_char(v) <= 'f'),
        hex_val(hex_char(v)) == v,
{
}

/// A digit character that is not lower case survives the round trip through
/// its value.
pub proof fn lemma_hex_val_of_char(c: char)
    requires
        is_hex_digit(c),
        !('a' <= c && c <= 'f'),
    ensures
        hex_val(c) < 16,
        hex_char(hex_val(c)) == c,
{
}

proof fn lemma_pack_unpack(h: u8, l: u8)
    requires
        h < 16,
        l < 16,
    ensures
        ((h * 16 + l) as u8) / 16 == h,
        ((h * 16 + l) as u8) % 16 == l,
{
}

/// Rendering any six octets yields a valid canonical address string, and
/// parsing that string back yields exactly the octets that were rendered.
pub proof fn lemma_render_parse_roundtrip(octets: Seq<u8>)
    requires
        octets.len() == 6,
    ensures
        is_canonical_chars(canonical_chars(octets)),
        address_octets(canonical_chars(octets)) == octets,
{
    let s = canonical_chars(octets);
    assert forall|i: int| 0 <= i < 17 && !is_sep_index(i) implies is_hex_digit(#[trigger] s[i])
        && !('a' <= s[i] && s[i] <= 'f') by {
        let k = i / 3;
        assert(0 <= k < 6);
        lemma_hex_char_of_val(octets[k] / 16);
        lemma_hex_char_of_val(octets[k] % 16);
    }
    assert forall|k: int| 0 <= k < 6 implies address_octets(s)[k] == octets[k] by {
        let o = octets[k];
        lemma_hex_char_of_val(o / 16);
        lemma_hex_char_of_val(o % 16);
        assert(s[3 * k] == hex_char(o / 16));
        assert(s[3 * k + 1] == hex_char(o % 16));
        assert(octet_at(s, k) == (hex_val(s[3 * k]) * 16 + hex_val(s[3 * k + 1])) as u8);
        assert((o / 16) * 16 + o % 16 == o);
    }
    assert(address_octets(s) =~= octets);
}

/// Parsing a canonical address string and rendering the parsed octets yields
/// the string itself: canonical strings survive the round trip unchanged.
pub proof fn lemma_parse_render_roundtrip(s: Seq<char>)
    requires
        is_canonical_chars(s),
    ensures
        canonical_chars(address_octets(s)) == s,
{
    let o = address_octets(s);
    assert forall|k: int| 0 <= k < 6 implies #[trigger] o[k] / 16 == hex_val(s[3 * k]) && o[k]
        % 16 == hex_val(s[3 * k + 1]) by {
        lemma_hex_val_of_char(s[3 * k]);
        lemma_hex_val_of_char(s[3 * k + 1]);
        lemma_pack_unpack(hex_val(s[3 * k]), hex_val(s[3 * k + 1]));
    }
    assert forall|k: int| 0 <= k < 6 implies hex_char(#[trigger] o[k] / 16) == s[3 * k]
        && hex_char(o[k] % 16) == s[3 * k + 1] by {
        lemma_hex_val_of_char(s[3 * k]);
        lemma_hex_val_of_char(s[3 * k + 1]);
    }
    assert(canonical_chars(o) =~= s);
}

/// The one-character string holding the upper-case digit for `v`.
fn hex_char_str(v: u8) -> (r: &'static str)
    requires
        v < 16,
    ensures
        r@ == seq![hex_char(v)],
{
    proof {
        reveal_strlit("0");
        reveal_strlit("1");
        reveal_strlit("2");
        reveal_strlit("3");
        reveal_strlit("4");
        reveal_strlit("5");
        reveal_strlit("6");
        reveal_strlit("7");
        reveal_strlit("8");
        reveal_strlit("9");
        reveal_strlit("A");
        reveal_strlit("B");
        reveal_strlit("C");
        reveal_strlit("D");
        reveal_strlit("E");
        reveal_strlit("F");
    }
    let r = match v {
        0 => "0",
        1 => "1",
        2 => "2",
        3 => "3",
        4 => "4",
        5 => "5",
        6 => "6",
        7 => "7",
        8 => "8",
        9 => "9",
        10 => "A",
        11 => "B",
        12 => "C",
        13 => "D",
        14 => "E",
        _ => "F",
    };
    proof {
        assert(r@ =~= seq![hex_char(v)]);
    }
    r
}

/// Append the two upper-case digits of the octet `v` to `out`.
fn push_octet(out: &mut String, v: u8)
    ensures
        final(out)@ == old(out)@ + seq![hex_char(v / 16), hex_char(v % 16)],
{
    out.append(hex_char_str(v / 16));
    out.append(hex_char_str(v % 16));
    proof {
        assert(out@ =~= old(out)@ + seq![hex_char(v / 16), hex_char(v % 16)]);
    }
}

/// Append the separating colon to `out`.
fn push_colon(out: &mut String)
    ensures
        final(out)@ == old(out)@ + seq![':'],
{
    proof {
        reveal_strlit(":");
    }
    out.append(":");
    proof {
        assert(out@ =~= old(out)@ + seq![':']);
    }
}

} // verus!
