//! Hardware addresses of guest network interfaces.

use vstd::prelude::*;

verus! {

/// Number of octets in a hardware address.
pub const MAC_ADDR_LEN: usize = 6;

/// Number of characters in the text form `xx:xx:xx:xx:xx:xx`.
pub const MAC_TEXT_LEN: usize = 17;

/// The lower-case hexadecimal digit for a value below sixteen.
pub open spec fn hex_digit(n: int) -> char {
    if n == 0 {
        '0'
    } else if n == 1 {
        '1'
    } else if n == 2 {
        '2'
    } else if n == 3 {
        '3'
    } else if n == 4 {
        '4'
    } else if n == 5 {
        '5'
    } else if n == 6 {
        '6'
    } else if n == 7 {
        '7'
    } else if n == 8 {
        '8'
    } else if n == 9 {
        '9'
    } else if n == 10 {
        'a'
    } else if n == 11 {
        'b'
    } else if n == 12 {
        'c'
    } else if n == 13 {
        'd'
    } else if n == 14 {
        'e'
    } else {
        'f'
    }
}

/// The value of a hexadecimal digit of either case, `None` for any other character.
pub open spec fn hex_value(c: char) -> Option<int> {
    if c == '0' {
        Some(0)
    } else if c == '1' {
        Some(1)
    } else if c == '2' {
        Some(2)
    } else if c == '3' {
        Some(3)
    } else if c == '4' {
        Some(4)
    } else if c == '5' {
        Some(5)
    } else if c == '6' {
        Some(6)
    } else if c == '7' {
        Some(7)
    } else if c == '8' {
        Some(8)
    } else if c == '9' {
        Some(9)
    } else if c == 'a' || c == 'A' {
        Some(10)
    } else if c == 'b' || c == 'B' {
        Some(11)
    } else if c == 'c' || c == 'C' {
        Some(12)
    } else if c == 'd' || c == 'D' {
        Some(13)
    } else if c == 'e' || c == 'E' {
        Some(14)
    } else if c == 'f' || c == 'F' {
        Some(15)
    } else {
        None
    }
}

/// The two digits that stand for one octet.
pub open spec fn octet_text(b: u8) -> Seq<char> {
    seq![hex_digit(b as int / 16), hex_digit(b as int % 16)]
}

/// The text form of six octets: two lower-case digits each, colons between.
pub open spec fn mac_text(bytes: Seq<u8>) -> Seq<char> {
    octet_text(bytes[0]) + seq![':'] + octet_text(bytes[1]) + seq![':'] + octet_text(bytes[2])
        + seq![':'] + octet_text(bytes[3]) + seq![':'] + octet_text(bytes[4]) + seq![':']
        + octet_text(bytes[5])
}

/// Whether `t` is six groups of exactly two hexadecimal digits with single colons between.
pub open spec fn is_mac_text(t: Seq<char>) -> bool {
    &&& t.len() == MAC_TEXT_LEN
    &&& forall|i: int|
        0 <= i < MAC_TEXT_LEN ==> if i % 3 == 2 {
            t[i] == ':'
        } else {
            hex_value(#[trigger] t[i]) is Some
        }
}

/// The octet that the group number `k` of a well-formed text stands for.
pub open spec fn octet_at(t: Seq<char>, k: int) -> u8 {
    (hex_value(t[3 * k])->0 * 16 + hex_value(t[3 * k + 1])->0) as u8
}

/// The six octets that a well-formed text stands for.
pub open spec fn mac_bytes(t: Seq<char>) -> Seq<u8> {
    Seq::new(MAC_ADDR_LEN as nat, |k: int| octet_at(t, k))
}

/// A six-octet hardware address.
#[derive(Clone, Copy, Debug, PartialEq, Eq)]
pub struct MacAddr {
    bytes: [u8; 6],
}

impl View for MacAddr {
    type V = Seq<u8>;

    closed spec fn view(&self) -> Seq<u8> {
        self.bytes@
    }
}

fn digit_str(n: u8) -> (s: &'static str)
    requires
        n < 16,
    ensures
        s@ == seq![hex_digit(n as int)],
{
    proof {
        reveal_strlit("0");
        reveal_strlit("1");
        reveal_strlit("2");
        reveal_strlit("3");
        reveal_strlit("4");
        reveal_strlit("5");
        reveal_strlit("6");
        reveal_strlit("7");
        reveal_strlit("8");
        reveal_strlit("9");
        reveal_strlit("a");
        reveal_strlit("b");
        reveal_strlit("c");
        reveal_strlit("d");
        reveal_strlit("e");
        reveal_strlit("f");
    }
    let s = if n == 0 {
        "0"
    } else if n == 1 {
        "1"
    } else if n == 2 {
        "2"
    } else if n == 3 {
        "3"
    } else if n == 4 {
        "4"
    } else if n == 5 {
        "5"
    } else if n == 6 {
        "6"
    } else if n == 7 {
        "7"
    } else if n == 8 {
        "8"
    } else if n == 9 {
        "9"
    } else if n == 10 {
        "a"
    } else if n == 11 {
        "b"
    } else if n == 12 {
        "c"
    } else if n == 13 {
        "d"
    } else if n == 14 {
        "e"
    } else {
        "f"
    };
    assert(s@ =~= seq![hex_digit(n as int)]);
    s
}

fn push_octet(out: &mut String, b: u8)
    ensures
        final(out)@ == old(out)@ + octet_text(b),
{
    out.append(digit_str(b / 16));
    out.append(digit_str(b % 16));
    assert(out@ =~= old(out)@ + octet_text(b));
}

fn push_colon(out: &mut String)
    ensures
        final(out)@ == old(out)@ + seq![':'],
{
    proof {
        reveal_strlit(":");
    }
    out.append(":");
    assert(out@ =~= old(out)@ + seq![':']);
}

fn digit_value(c: char) -> (v: Option<u8>)
    ensures
        match v {
            Some(n) => hex_value(c) == Some(n as int) && n < 16,
            None => hex_value(c) is None,
        },
{
    if c == '0' {
        Some(0)
    } else if c == '1' {
        Some(1)
    } else if c == '2' {
        Some(2)
    } else if c == '3' {
        Some(3)
    } else if c == '4' {
        Some(4)
    } else if c == '5' {
        Some(5)
    } else if c == '6' {
        Some(6)
    } else if c == '7' {
        Some(7)
    } else if c == '8' {
        Some(8)
    } else if c == '9' {
        Some(9)
    } else if c == 'a' || c == 'A' {
        Some(10)
    } else if c == 'b' || c == 'B' {
        Some(11)
    } else if c == 'c' || c == 'C' {
        Some(12)
    } else if c == 'd' || c == 'D' {
        Some(13)
    } else if c == 'e' || c == 'E' {
        Some(14)
    } else if c == 'f' || c == 'F' {
        Some(15)
    } else {
        None
    }
}

impl MacAddr {
    /// The address made of the six given octets.
    pub fn from_bytes(bytes: [u8; 6]) -> (mac: MacAddr)
        ensures
            mac@ == bytes@,
    {
        MacAddr { bytes }
    }

    /// The six octets, first octet first.
    pub fn get_bytes(&self) -> (bytes: &[u8; 6])
        ensures
            bytes@ == self@,
    {
        &self.bytes
    }

    /// Whether two addresses hold the same octets.
    pub fn same_as(&self, other: &MacAddr) -> (same: bool)
        ensures
            same == (self@ == other@),
    {
        let same = self.bytes[0] == other.bytes[0] && self.bytes[1] == other.bytes[1]
            && self.bytes[2] == other.bytes[2] && self.bytes[3] == other.bytes[3]
            && self.bytes[4] == other.bytes[4] && self.bytes[5] == other.bytes[5];
        proof {
            if same {
                assert(self@ =~= other@);
            }
        }
        same
    }

    /// Reads an address from its text form. Digits of either case are taken;
    /// anything but six two-digit groups with single colons between is refused.
    pub fn parse_str(s: &str) -> (parsed: Option<MacAddr>)
        ensures
            parsed is Some <==> is_mac_text(s@),
            parsed matches Some(mac) ==> mac@ == mac_bytes(s@),
    {
        if s.unicode_len() != MAC_TEXT_LEN {
            return None;
        }
        let mut bytes: [u8; 6] = [0u8; 6];
        let mut k: usize = 0;
        while k < MAC_ADDR_LEN
            invariant
                k <= MAC_ADDR_LEN,
                s@.len() == MAC_TEXT_LEN,
                forall|i: int|
                    0 <= i < 3 * k && i < MAC_TEXT_LEN ==> if i % 3 == 2 {
                        s@[i] == ':'
                    } else {
                        hex_value(#[trigger] s@[i]) is Some
                    },
                forall|j: int| 0 <= j < k ==> #[trigger] bytes@[j] == octet_at(s@, j),
            decreases MAC_ADDR_LEN - k,
        {
            let hi = digit_value(s.get_char(3 * k));
            let lo = digit_value(s.get_char(3 * k + 1));
            match (hi, lo) {
                (Some(h), Some(l)) => {
                    bytes[k] = h * 16 + l;
                },
                _ => {
                    assert(!is_mac_text(s@)) by {
                        if is_mac_text(s@) {
                            assert(hex_value(s@[3 * k as int]) is Some);
                            assert(hex_value(s@[3 * k as int + 1]) is Some);
                        }
                    }
                    return None;
                },
            }
            if k + 1 < MAC_ADDR_LEN {
                if s.get_char(3 * k + 2) != ':' {
                    assert(!is_mac_text(s@)) by {
                        if is_mac_text(s@) {
                            assert(s@[3 * k as int + 2] == ':');
                        }
                    }
                    return None;
                }
            }
            k += 1;
        }
        let mac = MacAddr { bytes };
        proof {
            assert(is_mac_text(s@));
            assert(mac@ =~= mac_bytes(s@));
        }
        Some(mac)
    }

    /// The text form `xx:xx:xx:xx:xx:xx`, in lower-case digits.
    pub fn to_string(&self) -> (text: String)
        ensures
            text@ == mac_text(self@),
    {
        let mut text = String::new();
        push_octet(&mut text, self.bytes[0]);
        push_colon(&mut text);
        push_octet(&mut text, self.bytes[1]);
        push_colon(&mut text);
        push_octet(&mut text, self.bytes[2]);
        push_colon(&mut text);
        push_octet(&mut text, self.bytes[3]);
        push_colon(&mut text);
        push_octet(&mut text, self.bytes[4]);
        push_colon(&mut text);
        push_octet(&mut text, self.bytes[5]);
        assert(text@ =~= mac_text(self@));
        text
    }
}

/// A digit stands for the value it was written for.
pub proof fn lemma_hex_digit_value(n: int)
    requires
        0 <= n < 16,
    ensures
        hex_value(hex_digit(n)) == Some(n),
{
}

/// Where the digits of each octet stand in the text form.
pub proof fn lemma_mac_text_layout(bytes: Seq<u8>, k: int)
    requires
        bytes.len() == MAC_ADDR_LEN,
        0 <= k < MAC_ADDR_LEN,
    ensures
        mac_text(bytes).len() == MAC_TEXT_LEN,
        mac_text(bytes)[3 * k] == hex_digit(bytes[k] as int / 16),
        mac_text(bytes)[3 * k + 1] == hex_digit(bytes[k] as int % 16),
        k < MAC_ADDR_LEN - 1 ==> mac_text(bytes)[3 * k + 2] == ':',
{
    let t = mac_text(bytes);
    let hi = |j: int| hex_digit(bytes[j] as int / 16);
    let lo = |j: int| hex_digit(bytes[j] as int % 16);
    assert(t =~= seq![
        hi(0),
        lo(0),
        ':',
        hi(1),
        lo(1),
        ':',
        hi(2),
        lo(2),
        ':',
        hi(3),
        lo(3),
        ':',
        hi(4),
        lo(4),
        ':',
        hi(5),
        lo(5),
    ]);
}

/// The text form of an address holds digits and colons, and so no double quote.
pub proof fn lemma_mac_text_has_no_quotes(bytes: Seq<u8>)
    requires
        bytes.len() == MAC_ADDR_LEN,
    ensures
        forall|i: int| 0 <= i < mac_text(bytes).len() ==> mac_text(bytes)[i] != '"',
{
    let t = mac_text(bytes);
    lemma_mac_text_layout(bytes, 0);
    assert forall|i: int| 0 <= i < t.len() implies t[i] != '"' by {
        lemma_mac_text_layout(bytes, i / 3);
    }
}

/// Every address is read back from its own text form.
pub proof fn lemma_mac_text_round_trip(bytes: Seq<u8>)
    requires
        bytes.len() == MAC_ADDR_LEN,
    ensures
        is_mac_text(mac_text(bytes)),
        mac_bytes(mac_text(bytes)) == bytes,
{
    let t = mac_text(bytes);
    lemma_mac_text_layout(bytes, 0);
    assert forall|i: int| 0 <= i < MAC_TEXT_LEN implies if i % 3 == 2 {
        t[i] == ':'
    } else {
        hex_value(#[trigger] t[i]) is Some
    } by {
        let k = i / 3;
        lemma_mac_text_layout(bytes, k);
        lemma_hex_digit_value(bytes[k] as int / 16);
        lemma_hex_digit_value(bytes[k] as int % 16);
    }
    assert forall|k: int| 0 <= k < MAC_ADDR_LEN implies #[trigger] mac_bytes(t)[k] == bytes[k] by {
        lemma_mac_text_layout(bytes, k);
        lemma_hex_digit_value(bytes[k] as int / 16);
        lemma_hex_digit_value(bytes[k] as int % 16);
    }
    assert(mac_bytes(t) =~= bytes);
}

} // verus!
