//! Value types: hardware addresses, gateway kinds and detections.
use vstd::prelude::*;
use vstd::string::StringSliceAdditionalSpecFns;

verus! {

broadcast use vstd::string::group_string_axioms;

/// Why a text is not a hardware address.
#[derive(Clone, Copy, Debug, PartialEq, Eq, Structural)]
pub enum MacParseError {
    /// Without its `:` separators the text does not hold exactly twelve bytes.
    InvalidLength,
    /// The text has the right length but a byte that is no hexadecimal digit.
    InvalidCharacter,
}

/// A hardware address: exactly six bytes. Two values are equal exactly when
/// their bytes are.
#[derive(Clone, Copy, Debug, Eq, PartialOrd, Ord)]
pub struct Mac {
    pub bytes: [u8; 6],
}

impl PartialEq for Mac {
    fn eq(&self, o: &Mac) -> (r: bool)
        ensures
            r == (self.bytes@ == o.bytes@),
    {
        let r = self.bytes[0] == o.bytes[0] && self.bytes[1] == o.bytes[1] && self.bytes[2]
            == o.bytes[2] && self.bytes[3] == o.bytes[3] && self.bytes[4] == o.bytes[4]
            && self.bytes[5] == o.bytes[5];
        proof {
            if r {
                assert(self.bytes@ =~= o.bytes@);
            }
        }
        r
    }
}

impl vstd::std_specs::cmp::PartialEqSpecImpl for Mac {
    open spec fn obeys_eq_spec() -> bool {
        true
    }

    open spec fn eq_spec(&self, o: &Mac) -> bool {
        self.bytes@ == o.bytes@
    }
}

/// The upper-case hexadecimal digit of `n` (`0 <= n < 16`).
pub open spec fn upper_hex_char(n: int) -> char {
    if n < 10 {
        ((n + 48) as u8) as char
    } else {
        ((n + 55) as u8) as char
    }
}

/// Two upper-case hexadecimal digits for each byte, high nibble first.
pub open spec fn upper_hex(b: Seq<u8>) -> Seq<char> {
    Seq::new(
        2 * b.len(),
        |i: int|
            if i % 2 == 0 {
                upper_hex_char(b[i / 2] as int / 16)
            } else {
                upper_hex_char(b[i / 2] as int % 16)
            },
    )
}

/// The canonical text of a hardware address: upper-case digit pairs joined by `:`.
pub open spec fn mac_text(b: Seq<u8>) -> Seq<char> {
    Seq::new(
        (3 * b.len() - 1) as nat,
        |i: int|
            if i % 3 == 2 {
                ':'
            } else if i % 3 == 0 {
                upper_hex_char(b[i / 3] as int / 16)
            } else {
                upper_hex_char(b[i / 3] as int % 16)
            },
    )
}

pub open spec fn is_hex_digit(c: u8) -> bool {
    (48 <= c <= 57) || (65 <= c <= 70) || (97 <= c <= 102)
}

pub open spec fn hex_value(c: u8) -> int {
    if 48 <= c <= 57 {
        c - 48
    } else if 65 <= c <= 70 {
        c - 55
    } else {
        c - 87
    }
}

pub open spec fn all_hex_digits(h: Seq<u8>) -> bool {
    forall|i: int| 0 <= i < h.len() ==> is_hex_digit(#[trigger] h[i])
}

/// The bytes that the digit pairs of `h` stand for.
pub open spec fn decode_hex(h: Seq<u8>) -> Seq<u8> {
    Seq::new(h.len() / 2, |i: int| (hex_value(h[2 * i]) * 16 + hex_value(h[2 * i + 1])) as u8)
}

/// `b` with every `:` taken out.
pub open spec fn strip_separators(b: Seq<u8>) -> Seq<u8>
    decreases b.len(),
{
    if b.len() == 0 {
        b
    } else if b.last() == 58u8 {
        strip_separators(b.drop_last())
    } else {
        strip_separators(b.drop_last()).push(b.last())
    }
}

/// What parsing the text with UTF-8 encoding `b` gives.
pub open spec fn parse_mac_bytes(b: Seq<u8>) -> Result<Seq<u8>, MacParseError> {
    let h = strip_separators(b);
    if h.len() != 12 {
        Err(MacParseError::InvalidLength)
    } else if !all_hex_digits(h) {
        Err(MacParseError::InvalidCharacter)
    } else {
        Ok(decode_hex(h))
    }
}

/// A parse result with the address seen as its bytes.
pub open spec fn parse_result_bytes(r: Result<Mac, MacParseError>) -> Result<Seq<u8>, MacParseError> {
    match r {
        Ok(m) => Ok(m.bytes@),
        Err(e) => Err(e),
    }
}

/// Relies on hex::encode_upper: two upper-case digits per byte, high nibble first.
#[verifier::external_body]
fn hex_upper(data: &[u8]) -> (r: String)
    ensures
        r@ == upper_hex(data@),
{
    hex::encode_upper(data)
}

/// Relies on hex::decode_to_slice into six bytes: an odd length or one other
/// than twelve is refused first, then each digit pair is decoded in turn and
/// the first byte that is no digit is refused.
#[verifier::external_body]
fn hex_decode_six(data: &[u8], out: &mut [u8; 6]) -> (r: Result<(), MacParseError>)
    ensures
        data@.len() != 12 ==> r is Err && r->Err_0 == MacParseError::InvalidLength,
        data@.len() == 12 && !all_hex_digits(data@) ==> r is Err && r->Err_0 == MacParseError::InvalidCharacter,
        data@.len() == 12 && all_hex_digits(data@) ==> r is Ok && final(out)@ == decode_hex(data@),
{
    match hex::decode_to_slice(data, out) {
        Ok(()) => Ok(()),
        Err(hex::FromHexError::OddLength) => Err(MacParseError::InvalidLength),
        Err(hex::FromHexError::InvalidStringLength) => Err(MacParseError::InvalidLength),
        Err(hex::FromHexError::InvalidHexCharacter { .. }) => Err(MacParseError::InvalidCharacter),
    }
}

proof fn lemma_upper_hex_ascii(b: Seq<u8>)
    ensures
        vstd::utf8::is_ascii_chars(upper_hex(b)),
{
    assert forall|i: int| 0 <= i < upper_hex(b).len() implies '\0' <= #[trigger] upper_hex(b)[i]
        <= '\u{7f}' by {
        let n = if i % 2 == 0 { b[i / 2] as int / 16 } else { b[i / 2] as int % 16 };
        assert(0 <= n < 16);
    }
}

impl Mac {
    /// The canonical text, e.g. `AA:BB:CC:DD:EE:FF`.
    pub fn to_string(&self) -> (r: String)
        ensures
            r@ == mac_text(self.bytes@),
    {
        let hex = hex_upper(&self.bytes);
        let digits = hex.as_str();
        proof {
            lemma_upper_hex_ascii(self.bytes@);
        }
        let colon = ":";
        proof {
            reveal_strlit(":");
            assert(colon@ =~= seq![':']);
        }
        let ghost text = mac_text(self.bytes@);
        let mut result = String::new();
        let mut i: usize = 0;
        while i < 6
            invariant
                i <= 6,
                digits@ == upper_hex(self.bytes@),
                digits.is_ascii(),
                colon@ == seq![':'],
                text == mac_text(self.bytes@),
                result@ =~= text.subrange(0, if i == 0 { 0 } else { 3 * i - 1 }),
            decreases 6 - i,
        {
            let ghost before = result@;
            if i > 0 {
                result.append(colon);
            }
            let pair = digits.substring_ascii(2 * i, 2 * i + 2);
            result.append(pair);
            proof {
                let lo: int = if i == 0 { 0 } else { 3 * i - 1 };
                let hi: int = 3 * i + 2;
                assert(pair@[0] == text[3 * i]);
                assert(pair@[1] == text[3 * i + 1]);
                if i > 0 {
                    assert(text[3 * i - 1] == ':');
                    assert(result@ =~= before + seq![':'] + pair@);
                } else {
                    assert(result@ =~= before + pair@);
                }
                assert(result@ =~= text.subrange(0, hi));
            }
            i = i + 1;
        }
        result
    }

    /// Parses a hardware address from text with or without `:` separators,
    /// in either case.
    pub fn from_str(s: &str) -> (r: Result<Mac, MacParseError>)
        ensures
            parse_result_bytes(r) == parse_mac_bytes(s.spec_bytes()),
    {
        let text = s.as_bytes();
        let mut digits: Vec<u8> = Vec::new();
        let mut i: usize = 0;
        while i < text.len()
            invariant
                i <= text@.len(),
                text@ == s.spec_bytes(),
                digits@ == strip_separators(text@.subrange(0, i as int)),
            decreases text@.len() - i,
        {
            assert(text@.subrange(0, i + 1).drop_last() =~= text@.subrange(0, i as int));
            if text[i] != 58u8 {
                digits.push(text[i]);
            }
            i = i + 1;
        }
        assert(text@.subrange(0, text@.len() as int) =~= text@);
        let mut bytes = [0u8; 6];
        match hex_decode_six(digits.as_slice(), &mut bytes) {
            Ok(()) => Ok(Mac { bytes }),
            Err(e) => Err(e),
        }
    }
}

/// `c` with an upper-case ASCII letter made lower-case.
pub open spec fn ascii_lower(c: u8) -> u8 {
    if 65 <= c <= 90 {
        (c + 32) as u8
    } else {
        c
    }
}

/// Equal but for the case of ASCII letters.
pub open spec fn same_ignoring_case(x: Seq<u8>, y: Seq<u8>) -> bool {
    x.len() == y.len() && forall|i: int| 0 <= i < x.len() ==> #[trigger] ascii_lower(x[i])
        == ascii_lower(y[i])
}

/// Texts that agree, once their separators are taken out, up to the case of
/// their letters parse alike: to the same address or to the same error.
pub proof fn lemma_parse_ignores_case(a: Seq<u8>, b: Seq<u8>)
    requires
        same_ignoring_case(strip_separators(a), strip_separators(b)),
    ensures
        parse_mac_bytes(a) == parse_mac_bytes(b),
{
    let x = strip_separators(a);
    let y = strip_separators(b);
    assert forall|i: int| 0 <= i < x.len() implies is_hex_digit(#[trigger] x[i]) == is_hex_digit(
        y[i],
    ) && (is_hex_digit(x[i]) ==> hex_value(x[i]) == hex_value(y[i])) by {
        assert(ascii_lower(x[i]) == ascii_lower(y[i]));
    }
    if x.len() == 12 && all_hex_digits(x) {
        assert forall|i: int| 0 <= i < y.len() implies is_hex_digit(#[trigger] y[i]) by {
            assert(is_hex_digit(x[i]));
        }
        assert(decode_hex(x) =~= decode_hex(y));
    }
    if x.len() == 12 && !all_hex_digits(x) {
        let k = choose|k: int| 0 <= k < x.len() && !is_hex_digit(#[trigger] x[k]);
        assert(!is_hex_digit(y[k]));
    }
}

proof fn lemma_upper_hex_char(n: int)
    requires
        0 <= n < 16,
    ensures
        is_hex_digit(upper_hex_char(n) as u8),
        hex_value(upper_hex_char(n) as u8) == n,
        upper_hex_char(n) != ':',
        '\0' <= upper_hex_char(n) <= '\u{7f}',
{
}

/// The prefix of length `k` of the canonical text's bytes, without its
/// separators, is the matching prefix of the hexadecimal digits.
proof fn lemma_strip_text_prefix(m: Seq<u8>, tb: Seq<u8>, hb: Seq<u8>, k: int)
    requires
        m.len() == 6,
        tb =~= Seq::new(17, |i: int| mac_text(m)[i] as u8),
        hb =~= Seq::new(12, |i: int| upper_hex(m)[i] as u8),
        0 <= k <= 17,
    ensures
        strip_separators(tb.subrange(0, k)) =~= hb.subrange(0, k - k / 3),
    decreases k,
{
    if k > 0 {
        lemma_strip_text_prefix(m, tb, hb, k - 1);
        let j = k - 1;
        assert(tb.subrange(0, k).drop_last() =~= tb.subrange(0, j));
        let q = j / 3;
        if j % 3 == 2 {
            assert(tb[j] == 58u8);
        } else {
            lemma_upper_hex_char(m[q] as int / 16);
            lemma_upper_hex_char(m[q] as int % 16);
            assert(j - j / 3 == 2 * q + j % 3);
            assert(tb[j] == hb[2 * q + j % 3]);
            assert(tb[j] != 58u8);
        }
    }
}

/// The canonical text of an address parses back to that address.
pub proof fn lemma_round_trip(m: Mac, s: &str)
    requires
        s@ == mac_text(m.bytes@),
    ensures
        parse_mac_bytes(s.spec_bytes()) == Ok::<Seq<u8>, MacParseError>(m.bytes@),
{
    let b = m.bytes@;
    assert forall|i: int| 0 <= i < s@.len() implies '\0' <= #[trigger] s@[i] <= '\u{7f}' by {
        lemma_upper_hex_char(b[i / 3] as int / 16);
        lemma_upper_hex_char(b[i / 3] as int % 16);
    }
    assert(vstd::string::is_ascii(s));
    let tb = s.spec_bytes();
    assert(tb =~= Seq::new(17, |i: int| mac_text(b)[i] as u8));
    let hb = Seq::new(12, |i: int| upper_hex(b)[i] as u8);
    lemma_strip_text_prefix(b, tb, hb, 17);
    assert(tb.subrange(0, 17) =~= tb);
    assert(hb.subrange(0, 12) =~= hb);
    assert forall|i: int| 0 <= i < 12 implies is_hex_digit(#[trigger] hb[i]) && hex_value(hb[i])
        == (if i % 2 == 0 { b[i / 2] as int / 16 } else { b[i / 2] as int % 16 }) by {
        lemma_upper_hex_char(b[i / 2] as int / 16);
        lemma_upper_hex_char(b[i / 2] as int % 16);
    }
    assert forall|q: int| 0 <= q < 6 implies #[trigger] decode_hex(hb)[q] == b[q] by {
        assert(hex_value(hb[2 * q]) == b[q] as int / 16);
        assert(hex_value(hb[2 * q + 1]) == b[q] as int % 16);
    }
    assert(decode_hex(hb) =~= b);
}

/// The two kinds of gateway that the protocol probes recognise.
#[derive(Clone, Copy, Debug, PartialEq, Eq, Structural)]
pub enum GatewayType {
    /// Answers the authenticated status query at `/cgi-bin/cgic-statusget`.
    G1,
    /// Answers the plain `GET /hello`.
    MG3,
}

/// A gateway found at an IPv4 address (as its 32-bit number).
#[derive(Clone, Copy, Debug)]
pub struct GatewayDetection {
    pub ip: u32,
    pub gateway: GatewayType,
    pub mac: Mac,
}

impl PartialEq for GatewayDetection {
    fn eq(&self, o: &GatewayDetection) -> (r: bool)
        ensures
            r == (self.ip == o.ip && self.gateway == o.gateway && self.mac.bytes@ == o.mac.bytes@),
    {
        self.ip == o.ip && self.gateway == o.gateway && self.mac == o.mac
    }
}

impl vstd::std_specs::cmp::PartialEqSpecImpl for GatewayDetection {
    open spec fn obeys_eq_spec() -> bool {
        true
    }

    open spec fn eq_spec(&self, o: &GatewayDetection) -> bool {
        self.ip == o.ip && self.gateway == o.gateway && self.mac.bytes@ == o.mac.bytes@
    }
}

} // verus!
