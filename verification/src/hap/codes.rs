//! HomeKit setup codes, setup ids and setup hashes.
use vstd::prelude::*;

use base64::prelude::BASE64_STANDARD;
use base64::Engine;
use crypto::digest::Digest;
use crypto::sha2::Sha512;
use rand::Rng;

use crate::hap::setup_uri::BASE36;
use crate::text::push_char;

verus! {

/// `rand::Rng::gen_range(low, high)` on the thread-local generator: a number drawn
/// from `low` (inclusive) to `high` (exclusive). It panics when `low >= high`.
#[verifier::external_body]
fn random_u32_in(low: u32, high: u32) -> (r: u32)
    requires
        low < high,
    ensures
        low <= r < high,
{
    rand::thread_rng().gen_range(low, high)
}

/// Six bytes drawn by `rand::Rng::gen` from the thread-local generator; any six
/// bytes can come out.
#[verifier::external_body]
fn random_bytes6() -> (r: [u8; 6]) {
    rand::thread_rng().gen()
}

/// Upper-case form of a string, as `str::to_uppercase` computes it.
pub uninterp spec fn uppercase_of(s: Seq<char>) -> Seq<char>;

/// Whether every character of a text is ASCII.
pub open spec fn is_ascii_text(s: Seq<char>) -> bool {
    forall|i: int| 0 <= i < s.len() ==> (#[trigger] s[i]) as u32 <= 127
}

/// The ASCII upper case of a character: `a` to `z` become `A` to `Z`.
pub open spec fn ascii_upper(c: char) -> char {
    if 97 <= c as u32 <= 122 {
        ((c as u32) - 32) as char
    } else {
        c
    }
}

/// The ASCII upper case of a text, character by character.
pub open spec fn ascii_upper_text(s: Seq<char>) -> Seq<char> {
    s.map_values(|c: char| ascii_upper(c))
}

/// `str::to_uppercase`: on ASCII text, each of `a` to `z` becomes its capital and
/// every other character stays.
#[verifier::external_body]
fn to_uppercase(s: &str) -> (r: String)
    ensures
        r@ == uppercase_of(s@),
        is_ascii_text(s@) ==> r@ == ascii_upper_text(s@),
{
    s.to_uppercase()
}

/// SHA-512 digest of the UTF-8 encoding of a string.
pub uninterp spec fn sha512_digest(input: Seq<char>) -> Seq<u8>;

/// `crypto::sha2::Sha512` fed with `input_str(input)`, its result read into a buffer
/// of `output_bytes()` bytes: the digest, 64 bytes long.
#[verifier::external_body]
fn sha512_of_str(input: &str) -> (digest: Vec<u8>)
    ensures
        digest@ == sha512_digest(input@),
        digest@.len() == 64,
{
    let mut hasher = Sha512::new();
    hasher.input_str(input);
    let mut buf: Vec<u8> = vec![0; hasher.output_bytes()];
    hasher.result(&mut buf);
    buf
}

/// The character of a six-bit group in the standard base64 alphabet
/// `A-Z a-z 0-9 + /`.
pub open spec fn base64_char(v: int) -> char {
    if v < 26 {
        (65 + v) as char
    } else if v < 52 {
        (97 + v - 26) as char
    } else if v < 62 {
        (48 + v - 52) as char
    } else if v == 62 {
        '+'
    } else {
        '/'
    }
}

/// Standard base64 of a byte string: each group of three bytes gives four
/// characters of six bits each; a last group of one or two bytes gives two or
/// three characters, padded with `=` to four.
pub open spec fn base64_standard(b: Seq<u8>) -> Seq<char>
    decreases b.len(),
{
    if b.len() == 0 {
        Seq::empty()
    } else if b.len() == 1 {
        seq![base64_char(b[0] as int / 4), base64_char((b[0] as int % 4) * 16), '=', '=']
    } else if b.len() == 2 {
        seq![
            base64_char(b[0] as int / 4),
            base64_char((b[0] as int % 4) * 16 + b[1] as int / 16),
            base64_char((b[1] as int % 16) * 4),
            '=',
        ]
    } else {
        seq![
            base64_char(b[0] as int / 4),
            base64_char((b[0] as int % 4) * 16 + b[1] as int / 16),
            base64_char((b[1] as int % 16) * 4 + b[2] as int / 64),
            base64_char(b[2] as int % 64),
        ] + base64_standard(b.skip(3))
    }
}

/// `base64::engine::general_purpose::STANDARD.encode`: the padded standard base64
/// text of the bytes.
#[verifier::external_body]
fn base64_encode(bytes: &[u8]) -> (s: String)
    ensures
        s@ == base64_standard(bytes@),
{
    BASE64_STANDARD.encode(bytes)
}

/// Whether `c` is one of the digits `0` to `9`.
pub open spec fn is_decimal_digit(c: char) -> bool {
    48 <= c as u32 <= 57
}

/// The value of a decimal digit.
pub open spec fn decimal_digit_value(c: char) -> u8 {
    (c as u32 - 48) as u8
}

/// The eight digits of a setup code written as text: digit `i` is the value of the
/// `i`-th character, or 0 where the text is shorter than eight characters. Characters
/// past the eighth are ignored; each of the first eight must be a decimal digit.
pub fn pin_code_from_str(pin: &str) -> (digits: [u8; 8])
    requires
        forall|i: int| 0 <= i < pin@.len() && i < 8 ==> is_decimal_digit(#[trigger] pin@[i]),
    ensures
        forall|i: int|
            0 <= i < 8 ==> digits@[i] == (if i < pin@.len() {
                decimal_digit_value(pin@[i])
            } else {
                0u8
            }),
{
    let mut arr: [u8; 8] = [0; 8];
    let len = pin.unicode_len();
    let mut i: usize = 0;
    while i < len && i < 8
        invariant
            len == pin@.len(),
            i <= 8,
            i <= len,
            forall|j: int| 0 <= j < pin@.len() && j < 8 ==> is_decimal_digit(#[trigger] pin@[j]),
            forall|j: int|
                0 <= j < 8 ==> arr@[j] == (if j < i {
                    decimal_digit_value(pin@[j])
                } else {
                    0u8
                }),
        decreases 8 - i,
    {
        let c = pin.get_char(i);
        assert(is_decimal_digit(pin@[i as int]));
        let d = (c as u32 - 48) as u8;
        arr[i] = d;
        i += 1;
    }
    arr
}

/// The setup codes that are never handed out.
pub open spec fn invalid_pin_codes() -> Seq<u32> {
    seq![
        0u32,
        11111111,
        22222222,
        33333333,
        44444444,
        55555555,
        66666666,
        77777777,
        88888888,
        99999999,
        12345678,
        87654321,
    ]
}

/// Whether a drawn setup code may be handed out.
pub open spec fn pin_code_allowed(n: u32) -> bool {
    !invalid_pin_codes().contains(n)
}

/// Keeps a drawn setup code unless it is one of the codes never handed out.
pub fn accept_pin_code(candidate: u32) -> (r: Option<u32>)
    ensures
        r == (if pin_code_allowed(candidate) {
            Some(candidate)
        } else {
            None
        }),
{
    let invalid_numbers: [u32; 12] = [
        0,
        11111111,
        22222222,
        33333333,
        44444444,
        55555555,
        66666666,
        77777777,
        88888888,
        99999999,
        12345678,
        87654321,
    ];
    assert(invalid_numbers@ =~= invalid_pin_codes());
    let mut i: usize = 0;
    while i < 12
        invariant
            i <= 12,
            invalid_numbers@ == invalid_pin_codes(),
            forall|j: int| 0 <= j < i ==> invalid_numbers@[j] != candidate,
        decreases 12 - i,
    {
        if invalid_numbers[i] == candidate {
            assert(invalid_pin_codes()[i as int] == candidate);
            return None;
        }
        i += 1;
    }
    Some(candidate)
}

/// Draws one eight-digit setup code from 10000000 up to (not including) 99999999 and
/// keeps it unless it is one of the codes never handed out.
pub fn rand_pin_code_attempt() -> (r: Option<u32>)
    ensures
        r matches Some(n) ==> 10_000_000 <= n < 99_999_999 && pin_code_allowed(n),
        exists|drawn: u32|
            10_000_000 <= drawn < 99_999_999 && r == (if pin_code_allowed(drawn) {
                Some(drawn)
            } else {
                None
            }),
{
    let number = random_u32_in(10_000_000, 99_999_999);
    accept_pin_code(number)
}

/// A random setup id: four characters drawn from `0-9` and `A-Z`.
pub fn rand_setup_id() -> (id: String)
    ensures
        id@.len() == 4,
        forall|i: int| 0 <= i < 4 ==> BASE36@.contains(#[trigger] id@[i]),
{
    let mut setup_id = String::new();
    let mut k: usize = 0;
    while k < 4
        invariant
            k <= 4,
            setup_id@.len() == k,
            forall|i: int| 0 <= i < k ==> BASE36@.contains(#[trigger] setup_id@[i]),
        decreases 4 - k,
    {
        let index = random_u32_in(0, 36) as usize;
        let c = BASE36[index];
        assert(BASE36@[index as int] == c);
        push_char(&mut setup_id, c);
        k += 1;
    }
    setup_id
}

/// A random MAC address: six random bytes.
pub fn rand_mac_addr() -> (mac: [u8; 6]) {
    random_bytes6()
}

/// The setup hash of a digest: the standard base64 of its first four bytes.
pub fn setup_hash_from_digest(digest: &[u8]) -> (hash: String)
    requires
        digest@.len() >= 4,
    ensures
        hash@ == base64_standard(digest@.take(4)),
        hash@.len() == 8,
        hash@[6] == '=' && hash@[7] == '=',
{
    let head = &digest[0..4];
    assert(head@ =~= digest@.take(4));
    proof {
        lemma_base64_of_four_bytes(head@);
    }
    base64_encode(head)
}

/// The standard base64 of four bytes is eight characters ending in `==`.
pub proof fn lemma_base64_of_four_bytes(b: Seq<u8>)
    requires
        b.len() == 4,
    ensures
        base64_standard(b).len() == 8,
        base64_standard(b)[6] == '=',
        base64_standard(b)[7] == '=',
{
    let tail = b.skip(3);
    assert(tail.len() == 1);
    let t = base64_standard(tail);
    assert(t.len() == 4 && t[2] == '=' && t[3] == '=');
    let head = seq![
        base64_char(b[0] as int / 4),
        base64_char((b[0] as int % 4) * 16 + b[1] as int / 16),
        base64_char((b[1] as int % 16) * 4 + b[2] as int / 64),
        base64_char(b[2] as int % 64),
    ];
    assert(base64_standard(b) == head + t);
    assert((head + t)[6] == t[2]);
    assert((head + t)[7] == t[3]);
}

/// The setup hash of a setup id and a MAC address text: the base64 of the first
/// four bytes of the SHA-512 digest of the setup id followed by the MAC address in
/// upper case.
pub open spec fn setup_hash_spec(setup_id: Seq<char>, upper_mac: Seq<char>) -> Seq<char> {
    base64_standard(sha512_digest(setup_id + upper_mac).take(4))
}

/// The setup hash that a bridge advertises: the base64 of the first four bytes of the
/// SHA-512 digest of the setup id followed by the upper-cased MAC address. It is
/// eight characters long and ends in `==`.
pub fn compute_setup_hash(setup_id: &str, mac: &str) -> (hash: String)
    ensures
        hash@ == setup_hash_spec(setup_id@, uppercase_of(mac@)),
        is_ascii_text(mac@) ==> hash@ == setup_hash_spec(setup_id@, ascii_upper_text(mac@)),
        hash@.len() == 8,
        hash@[6] == '=' && hash@[7] == '=',
{
    let mac_upper = to_uppercase(mac);
    let mut input = String::from_str(setup_id);
    input.append(mac_upper.as_str());
    let digest = sha512_of_str(input.as_str());
    setup_hash_from_digest(digest.as_slice())
}

/// The setup hash of an ASCII MAC address does not depend on the case of its
/// letters: two addresses that agree once upper-cased give the same hash.
pub proof fn lemma_setup_hash_ignores_mac_case(setup_id: Seq<char>, mac1: Seq<char>, mac2: Seq<char>)
    requires
        is_ascii_text(mac1),
        is_ascii_text(mac2),
        ascii_upper_text(mac1) == ascii_upper_text(mac2),
    ensures
        setup_hash_spec(setup_id, ascii_upper_text(mac1)) == setup_hash_spec(
            setup_id,
            ascii_upper_text(mac2),
        ),
{
}

} // verus!
