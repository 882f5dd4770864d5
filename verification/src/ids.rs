//! Device identifiers and operator-facing relay keys.
//!
//! A device identifier is the lowercase hex rendering of the SHA-1 digest
//! of the device name.  A relay key is a word from a small base list plus
//! a 2-digit numeric suffix; the key space is small by design, so key
//! collisions are expected and handled by the relay retry protocol.

use vstd::prelude::*;
use vstd::string::StringSliceAdditionalSpecFns;

use sha1::Digest;

verus! {

/// The SHA-1 digest of a byte sequence: a function of the input alone,
/// named here and computed only by the outside hasher.
pub uninterp spec fn sha1_of(bytes: Seq<u8>) -> Seq<u8>;

/// Relies on sha1::Sha1 through the Digest trait: the digest depends on
/// the input bytes alone and is always 20 bytes long.
#[verifier::external_body]
fn sha1_digest(data: &[u8]) -> (r: Vec<u8>)
    ensures
        r@ == sha1_of(data@),
        r@.len() == 20,
{
    sha1::Sha1::digest(data).to_vec()
}

/// The lowercase hex digit for a nibble.
pub open spec fn hex_digit(n: u8) -> char
    recommends
        n < 16,
{
    if n < 10 {
        (('0' as u8) + n) as char
    } else {
        (('a' as u8) + (n - 10)) as char
    }
}

/// Lowercase hex encoding: two digits per byte, high nibble first.
pub open spec fn hex_of(bytes: Seq<u8>) -> Seq<char>
    decreases bytes.len(),
{
    if bytes.len() == 0 {
        Seq::empty()
    } else {
        hex_of(bytes.drop_last()) + seq![
            hex_digit(bytes.last() / 16),
            hex_digit(bytes.last() % 16),
        ]
    }
}

/// Relies on hex::encode: lowercase hex, two digits per byte, in input
/// order.
#[verifier::external_body]
fn hex_encode(data: &Vec<u8>) -> (r: String)
    ensures
        r@ == hex_of(data@),
{
    hex::encode(data)
}

/// The hex encoding is two digits per byte.
pub proof fn lemma_hex_len(bytes: Seq<u8>)
    ensures
        hex_of(bytes).len() == 2 * bytes.len(),
    decreases bytes.len(),
{
    if bytes.len() > 0 {
        lemma_hex_len(bytes.drop_last());
    }
}

/// The identifier a device presents to the discovery mechanism: the
/// lowercase hex rendering of the SHA-1 digest of its name.
pub fn device_id(name: &str) -> (r: String)
    ensures
        r@ == hex_of(sha1_of(name.spec_bytes())),
{
    let digest = sha1_digest(name.as_bytes());
    hex_encode(&digest)
}

/// Relies on rand::random: a value drawn from the thread-local generator.
/// Nothing is promised of the result.
#[verifier::external_body]
fn random_u32() -> u32 {
    rand::random::<u32>()
}

/// The base words a relay key starts with.
pub open spec fn spec_base_words() -> Seq<Seq<char>> {
    seq!["brad"@, "bro"@, "beer"@, "buck"@, "beans"@, "bird"@, "brain"@]
}

fn base_word(i: usize) -> (r: &'static str)
    requires
        i < 7,
    ensures
        r@ == spec_base_words()[i as int],
{
    match i {
        0 => "brad",
        1 => "bro",
        2 => "beer",
        3 => "buck",
        4 => "beans",
        5 => "bird",
        _ => "brain",
    }
}

/// The decimal digit character for a value below ten.
pub open spec fn digit_char(d: u32) -> char
    recommends
        d < 10,
{
    (('0' as u8) + (d as u8)) as char
}

/// The numeric suffix of a relay key: the decimal rendering of a value
/// below 100, without a leading zero.
pub open spec fn spec_key_suffix(n: u32) -> Seq<char>
    recommends
        n < 100,
{
    if n < 10 {
        seq![digit_char(n)]
    } else {
        seq![digit_char(n / 10), digit_char(n % 10)]
    }
}

fn digit_str(d: u32) -> (r: &'static str)
    requires
        d < 10,
    ensures
        r@ == seq![digit_char(d)],
{
    proof {
        reveal_strlit("0");
        reveal_strlit("1");
        reveal_strlit("2");
        reveal_strlit("3");
        reveal_strlit("4");
        reveal_strlit("5");
        reveal_strlit("6");
        reveal_strlit("7");
        reveal_strlit("8");
        reveal_strlit("9");
    }
    match d {
        0 => "0",
        1 => "1",
        2 => "2",
        3 => "3",
        4 => "4",
        5 => "5",
        6 => "6",
        7 => "7",
        8 => "8",
        _ => "9",
    }
}

/// A well-formed relay key: some base word followed by a 2-digit suffix.
pub open spec fn is_relay_key(s: Seq<char>) -> bool {
    exists|i: int, n: u32|
        0 <= i < spec_base_words().len() && n < 100 && s == spec_base_words()[i]
            + spec_key_suffix(n)
}

/// The key built from a chosen base word and a numeric draw: the word
/// followed by the draw reduced to two decimal digits.
pub fn relay_key_from(word: &str, n: u32) -> (r: String)
    ensures
        r@ == word@ + spec_key_suffix(n % 100),
{
    let m = n % 100;
    let mut s = String::from_str(word);
    if m < 10 {
        s.append(digit_str(m));
        proof {
            assert(s@ =~= word@ + spec_key_suffix(m));
        }
    } else {
        s.append(digit_str(m / 10));
        s.append(digit_str(m % 10));
        proof {
            assert(s@ =~= word@ + spec_key_suffix(m));
        }
    }
    s
}

/// Append the four little-endian bytes of a random draw.
fn push_u32_bytes(bytes: &mut Vec<u8>, n: u32)
    ensures
        final(bytes)@.len() == old(bytes)@.len() + 4,
{
    bytes.push((n % 256) as u8);
    bytes.push(((n / 256) % 256) as u8);
    bytes.push(((n / 65536) % 256) as u8);
    bytes.push(((n / 16777216) % 256) as u8);
}

/// A fresh session token: the lowercase hex rendering of eight random
/// bytes.  One independent draw serves as a session's correlation token,
/// another as its authorization credential for the status relay; both
/// are generated at spawn time and handed to the player via its launch
/// arguments.
pub fn generate_session_token() -> (r: String)
    ensures
        r@.len() == 16,
        exists|b: Seq<u8>| b.len() == 8 && r@ == hex_of(b),
{
    let mut bytes: Vec<u8> = Vec::new();
    push_u32_bytes(&mut bytes, random_u32());
    push_u32_bytes(&mut bytes, random_u32());
    let token = hex_encode(&bytes);
    proof {
        lemma_hex_len(bytes@);
    }
    token
}

/// A fresh relay key: a random base word plus a random 2-digit suffix.
/// Collisions within the registry are possible by design; the relay
/// protocol retries on conflict rather than preventing them.
pub fn generate_id() -> (r: String)
    ensures
        is_relay_key(r@),
{
    let w = random_u32();
    let n = random_u32();
    let word = base_word((w % 7) as usize);
    let key = relay_key_from(word, n);
    proof {
        let i = (w % 7) as int;
        let m = (n % 100) as u32;
        assert(0 <= i < spec_base_words().len() && m < 100 && key@ == spec_base_words()[i]
            + spec_key_suffix(m));
    }
    key
}

} // verus!
