use vstd::prelude::*;

use aes::cipher::block_padding::Pkcs7;
use aes::cipher::{BlockModeEncrypt, KeyIvInit};

verus! {

/// The AES-128-CBC ciphertext of a PKCS#7-padded plaintext under an
/// all-zero initialization vector: a fixed function of key and plaintext.
pub uninterp spec fn aes128_cbc_encrypt(key: Seq<u8>, value: Seq<u8>) -> Seq<u8>;

/// Encrypt a value with AES-128 in CBC mode, an all-zero initialization
/// vector and PKCS#7 padding, as the authentication handshake requires.
///
/// Relies on `cbc::Encryptor::<aes::Aes128>`: `new_from_slices` fails
/// exactly when the key is not sixteen bytes, and `encrypt_padded_b2b`
/// fails exactly when the padded plaintext outgrows the 48-byte buffer.
/// PKCS#7 pads to the next multiple of the block size, always adding at
/// least one byte, so the ciphertext is `len + 16 - len % 16` bytes.
#[verifier::external_body]
pub fn encrypt_value(key: &[u8], value: &[u8]) -> (r: Option<Vec<u8>>)
    ensures
        match r {
            Some(ct) => key@.len() == 16 && value@.len() + 16 - (value@.len() % 16) <= 48 && ct@
                == aes128_cbc_encrypt(key@, value@) && ct@.len() == value@.len() + 16 - (
            value@.len() % 16),
            None => key@.len() != 16 || value@.len() + 16 - (value@.len() % 16) > 48,
        },
{
    let iv = [0u8; 16];
    let encryptor = match cbc::Encryptor::<aes::Aes128>::new_from_slices(key, &iv) {
        Ok(encryptor) => encryptor,
        Err(_) => return None,
    };
    let mut buf = [0u8; 48];
    match encryptor.encrypt_padded_b2b::<Pkcs7>(value, &mut buf) {
        Ok(ciphertext) => Some(ciphertext.to_vec()),
        Err(_) => None,
    }
}

pub open spec fn is_hex_digit(c: char) -> bool {
    ('0' <= c <= '9') || ('a' <= c <= 'f') || ('A' <= c <= 'F')
}

pub open spec fn hex_digit_value(c: char) -> int
    recommends
        is_hex_digit(c),
{
    if '0' <= c <= '9' {
        c as u32 - '0' as u32
    } else if 'a' <= c <= 'f' {
        c as u32 - 'a' as u32 + 10
    } else {
        c as u32 - 'A' as u32 + 10
    }
}

/// What decoding a hex string yields: one byte per digit pair, or nothing
/// when the length is odd or any character is no hex digit.
pub open spec fn spec_decode_hex(s: Seq<char>) -> Option<Seq<u8>> {
    if s.len() % 2 == 1 {
        None
    } else if exists|i: int| 0 <= i < s.len() && !is_hex_digit(s[i]) {
        None
    } else {
        Some(Seq::new(s.len() / 2, |i: int| (hex_digit_value(s[2 * i]) * 16 + hex_digit_value(s[2 * i + 1])) as u8))
    }
}

fn hex_digit(c: char) -> (r: Option<u8>)
    ensures
        r is Some <==> is_hex_digit(c),
        r matches Some(v) ==> v == hex_digit_value(c),
{
    if '0' <= c && c <= '9' {
        Some((c as u32 - '0' as u32) as u8)
    } else if 'a' <= c && c <= 'f' {
        Some((c as u32 - 'a' as u32 + 10) as u8)
    } else if 'A' <= c && c <= 'F' {
        Some((c as u32 - 'A' as u32 + 10) as u8)
    } else {
        None
    }
}

/// Decode a string of hex digit pairs into bytes.
pub fn decode_hex(hex_string: &str) -> (r: Option<Vec<u8>>)
    ensures
        match r {
            Some(v) => spec_decode_hex(hex_string@) == Some(v@),
            None => spec_decode_hex(hex_string@) is None,
        },
{
    let n: usize = hex_string.unicode_len();
    if n % 2 == 1 {
        return None;
    }
    let mut out: Vec<u8> = Vec::new();
    let pairs: usize = n / 2;
    for i in 0..pairs
        invariant
            n == hex_string@.len(),
            n % 2 == 0,
            pairs == n / 2,
            out@.len() == i,
            forall|j: int| 0 <= j < 2 * i ==> is_hex_digit(#[trigger] hex_string@[j]),
            forall|j: int|
                0 <= j < i ==> #[trigger] out@[j] == (hex_digit_value(hex_string@[2 * j]) * 16
                    + hex_digit_value(hex_string@[2 * j + 1])) as u8,
    {
        let c1: char = hex_string.get_char(2 * i);
        let c2: char = hex_string.get_char(2 * i + 1);
        let d1: u8 = match hex_digit(c1) {
            Some(d) => d,
            None => {
                return None;
            },
        };
        let d2: u8 = match hex_digit(c2) {
            Some(d) => d,
            None => {
                return None;
            },
        };
        out.push(d1 * 16 + d2);
    }
    proof {
        let expected = spec_decode_hex(hex_string@);
        assert(expected matches Some(s) && s =~= out@);
    }
    Some(out)
}

/// Whether every character of the string is a hex digit.
pub open spec fn spec_is_hex_string(s: Seq<char>) -> bool {
    forall|i: int| 0 <= i < s.len() ==> is_hex_digit(#[trigger] s[i])
}

/// Check that a string holds only hex digits.
pub fn is_hex_string(string: &str) -> (r: bool)
    ensures
        r == spec_is_hex_string(string@),
{
    let n: usize = string.unicode_len();
    for i in 0..n
        invariant
            n == string@.len(),
            forall|j: int| 0 <= j < i ==> is_hex_digit(#[trigger] string@[j]),
    {
        let c: char = string.get_char(i);
        if hex_digit(c).is_none() {
            return false;
        }
    }
    true
}

/// Compare two string slices by their characters.
pub fn str_eq(a: &str, b: &str) -> (r: bool)
    ensures
        r == (a@ == b@),
{
    let owned_a = a.to_owned();
    let owned_b = b.to_owned();
    owned_a == owned_b
}

pub open spec fn spec_starts_with(s: Seq<char>, prefix: Seq<char>) -> bool {
    s.len() >= prefix.len() && s.subrange(0, prefix.len() as int) == prefix
}

/// Whether `s` begins with `prefix`.
pub fn str_starts_with(s: &str, prefix: &str) -> (r: bool)
    ensures
        r == spec_starts_with(s@, prefix@),
{
    let n: usize = prefix.unicode_len();
    let m: usize = s.unicode_len();
    if m < n {
        return false;
    }
    for i in 0..n
        invariant
            n <= m,
            n == prefix@.len(),
            m == s@.len(),
            forall|j: int| 0 <= j < i ==> s@[j] == prefix@[j],
    {
        if s.get_char(i) != prefix.get_char(i) {
            proof {
                assert(s@.subrange(0, n as int)[i as int] != prefix@[i as int]);
            }
            return false;
        }
    }
    proof {
        assert(s@.subrange(0, n as int) =~= prefix@);
    }
    true
}

pub open spec fn spec_digit_char(d: int) -> char
    recommends
        0 <= d <= 9,
{
    if d == 0 {
        '0'
    } else if d == 1 {
        '1'
    } else if d == 2 {
        '2'
    } else if d == 3 {
        '3'
    } else if d == 4 {
        '4'
    } else if d == 5 {
        '5'
    } else if d == 6 {
        '6'
    } else if d == 7 {
        '7'
    } else if d == 8 {
        '8'
    } else {
        '9'
    }
}

/// The decimal digits of a number, most significant first.
pub open spec fn spec_dec_str(n: nat) -> Seq<char>
    decreases n,
{
    if n < 10 {
        seq![spec_digit_char(n as int)]
    } else {
        spec_dec_str(n / 10) + seq![spec_digit_char((n % 10) as int)]
    }
}

fn digit_str(d: u64) -> (r: &'static str)
    requires
        d <= 9,
    ensures
        r@ == seq![spec_digit_char(d as int)],
{
    match d {
        0 => {
            proof {
                reveal_strlit("0");
            }
            "0"
        },
        1 => {
            proof {
                reveal_strlit("1");
            }
            "1"
        },
        2 => {
            proof {
                reveal_strlit("2");
            }
            "2"
        },
        3 => {
            proof {
                reveal_strlit("3");
            }
            "3"
        },
        4 => {
            proof {
                reveal_strlit("4");
            }
            "4"
        },
        5 => {
            proof {
                reveal_strlit("5");
            }
            "5"
        },
        6 => {
            proof {
                reveal_strlit("6");
            }
            "6"
        },
        7 => {
            proof {
                reveal_strlit("7");
            }
            "7"
        },
        8 => {
            proof {
                reveal_strlit("8");
            }
            "8"
        },
        _ => {
            proof {
                reveal_strlit("9");
            }
            "9"
        },
    }
}

/// Render a number in decimal.
fn u64_to_dec(n: u64) -> (r: String)
    ensures
        r@ == spec_dec_str(n as nat),
    decreases n,
{
    if n < 10 {
        String::from_str(digit_str(n))
    } else {
        let mut s = u64_to_dec(n / 10);
        s.append(digit_str(n % 10));
        s
    }
}

/// A fraction of a thousand rendered as exactly three digits.
pub open spec fn spec_pad3(frac: int) -> Seq<char>
    recommends
        0 <= frac < 1000,
{
    if frac < 10 {
        seq!['0', '0'] + spec_dec_str(frac as nat)
    } else if frac < 100 {
        seq!['0'] + spec_dec_str(frac as nat)
    } else {
        spec_dec_str(frac as nat)
    }
}

fn pad3(frac: u64) -> (r: String)
    requires
        frac < 1000,
    ensures
        r@ == spec_pad3(frac as int),
{
    if frac < 10 {
        proof {
            reveal_strlit("00");
        }
        let mut s = String::from_str("00");
        s.append(u64_to_dec(frac).as_str());
        s
    } else if frac < 100 {
        proof {
            reveal_strlit("0");
        }
        let mut s = String::from_str("0");
        s.append(u64_to_dec(frac).as_str());
        s
    } else {
        u64_to_dec(frac)
    }
}

/// The distance in feet (below 161 meters) or miles (from 161 meters up),
/// with three decimals. A meter is exactly 3.281 feet here, and a mile
/// 1609.344 meters, the fraction rounded half-up to the third decimal.
pub open spec fn spec_meters_to_imperial(meters: u16) -> Seq<char> {
    if meters < 161 {
        let scaled = meters * 3281;
        spec_dec_str((scaled / 1000) as nat) + seq!['.'] + spec_pad3(scaled % 1000) + seq![
            ' ',
            'f',
            't',
        ]
    } else {
        let milli = (meters * 1000000 + 804672) / 1609344;
        spec_dec_str((milli / 1000) as nat) + seq!['.'] + spec_pad3(milli % 1000) + seq![
            ' ',
            'm',
            'i',
        ]
    }
}

/// Format a distance for display, in feet below the 161-meter boundary
/// and in miles from there on.
pub fn meters_to_imperial(meters: u16) -> (r: String)
    ensures
        r@ == spec_meters_to_imperial(meters),
{
    proof {
        reveal_strlit(".");
        reveal_strlit(" ft");
        reveal_strlit(" mi");
    }
    if meters < 161 {
        let scaled: u64 = meters as u64 * 3281;
        let mut s = u64_to_dec(scaled / 1000);
        s.append(".");
        s.append(pad3(scaled % 1000).as_str());
        s.append(" ft");
        s
    } else {
        let milli: u64 = (meters as u64 * 1000000 + 804672) / 1609344;
        let mut s = u64_to_dec(milli / 1000);
        s.append(".");
        s.append(pad3(milli % 1000).as_str());
        s.append(" mi");
        s
    }
}

} // verus!
