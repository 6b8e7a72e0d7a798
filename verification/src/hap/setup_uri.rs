//! HomeKit setup payloads: the `X-HM://` URI that a setup QR code carries.
use vstd::prelude::*;

use crate::text::push_char;

verus! {

/// Digits of the base-36 alphabet used by setup URIs.
pub const BASE36: [char; 36] = [
    '0', '1', '2', '3', '4', '5', '6', '7', '8', '9', 'A', 'B', 'C', 'D', 'E', 'F', 'G', 'H',
    'I', 'J', 'K', 'L', 'M', 'N', 'O', 'P', 'Q', 'R', 'S', 'T', 'U', 'V', 'W', 'X', 'Y', 'Z',
];

/// The fields of a setup payload.
pub struct HomeKitSetupUri {
    /// Accessory category.
    pub category: u64,
    /// Setup code (pin).
    pub password: u64,
    /// Setup id appended to the URI.
    pub setup_id: String,
    pub version: u64,
    pub reserved: u64,
    /// Transport flags: 2 = IP, 4 = BLE, 8 = IP with WAC.
    pub flags: u64,
}

impl HomeKitSetupUri {
    /// The default payload: a bridge (category 2) over IP (flags 2), setup code 0,
    /// empty setup id, version and reserved bits 0.
    pub fn default() -> (p: HomeKitSetupUri)
        ensures
            p.category == 2,
            p.password == 0,
            p.setup_id@ == Seq::<char>::empty(),
            p.version == 0,
            p.reserved == 0,
            p.flags == 2,
    {
        HomeKitSetupUri {
            category: 2,
            password: 0,
            setup_id: String::new(),
            version: 0,
            reserved: 0,
            flags: 2,
        }
    }
}

/// The packed payload: from the most significant bits down, version (3 bits),
/// reserved (4 bits), category (8 bits), flags (4 bits), then 27 bits over which
/// the low 31 bits of the setup code are or-ed.
pub open spec fn setup_payload(version: u64, reserved: u64, category: u64, flags: u64, password: u64) -> u64 {
    (((((((version & 7) << 4u64) | (reserved & 0xf)) << 8u64) | (category & 0xff)) << 4u64) | (
    flags & 0xf)) << 27u64 | (password & 0x7fffffff)
}

/// The `n` lowest base-36 digits of `x`, most significant first.
pub open spec fn base36_digits(x: nat, n: nat) -> Seq<char>
    decreases n,
{
    if n == 0 {
        Seq::empty()
    } else {
        base36_digits(x / 36, (n - 1) as nat).push(BASE36@[(x % 36) as int])
    }
}

/// The `n` lowest base-36 digits of `x`, least significant first.
pub open spec fn base36_digits_low_first(x: nat, n: nat) -> Seq<char>
    decreases n,
{
    if n == 0 {
        Seq::empty()
    } else {
        seq![BASE36@[(x % 36) as int]] + base36_digits_low_first(x / 36, (n - 1) as nat)
    }
}

/// The setup URI of a payload: `X-HM://`, the nine base-36 digits of the packed
/// payload, and the setup id.
pub open spec fn setup_uri_spec(
    version: u64,
    reserved: u64,
    category: u64,
    flags: u64,
    password: u64,
    setup_id: Seq<char>,
) -> Seq<char> {
    "X-HM://"@ + base36_digits(setup_payload(version, reserved, category, flags, password) as nat, 9)
        + setup_id
}

proof fn lemma_low_first_reversed(x: nat, n: nat)
    ensures
        base36_digits_low_first(x, n).reverse() == base36_digits(x, n),
        base36_digits_low_first(x, n).len() == n,
    decreases n,
{
    if n > 0 {
        lemma_low_first_reversed(x / 36, (n - 1) as nat);
        let c = BASE36@[(x % 36) as int];
        let rest = base36_digits_low_first(x / 36, (n - 1) as nat);
        assert((seq![c] + rest).reverse() =~= rest.reverse().push(c));
    }
}

/// Character codes of the base-36 alphabet: digits, then capital letters.
proof fn lemma_base36_codes(k: int)
    requires
        0 <= k < 36,
    ensures
        BASE36@[k] as u32 == (if k < 10 {
            48 + k
        } else {
            55 + k
        }),
{
    assert(BASE36@ =~= seq![
        '0', '1', '2', '3', '4', '5', '6', '7', '8', '9', 'A', 'B', 'C', 'D', 'E', 'F', 'G', 'H',
        'I', 'J', 'K', 'L', 'M', 'N', 'O', 'P', 'Q', 'R', 'S', 'T', 'U', 'V', 'W', 'X', 'Y', 'Z',
    ]);
}

/// Powers of 36.
pub open spec fn pow36(n: nat) -> nat
    decreases n,
{
    if n == 0 {
        1
    } else {
        36 * pow36((n - 1) as nat)
    }
}

/// Below `36^n`, the `n` base-36 digits of a number determine it.
pub proof fn lemma_base36_digits_injective(x: nat, y: nat, n: nat)
    requires
        x < pow36(n),
        y < pow36(n),
        base36_digits(x, n) == base36_digits(y, n),
    ensures
        x == y,
    decreases n,
{
    if n == 0 {
    } else {
        let dx = base36_digits(x, n);
        let dy = base36_digits(y, n);
        assert(dx.last() == BASE36@[(x % 36) as int]);
        assert(dy.last() == BASE36@[(y % 36) as int]);
        lemma_base36_codes((x % 36) as int);
        lemma_base36_codes((y % 36) as int);
        assert(x % 36 == y % 36);
        assert(dx.drop_last() =~= base36_digits(x / 36, (n - 1) as nat));
        assert(dy.drop_last() =~= base36_digits(y / 36, (n - 1) as nat));
        assert(x / 36 < pow36((n - 1) as nat)) by (nonlinear_arith)
            requires
                x < 36 * pow36((n - 1) as nat),
        ;
        assert(y / 36 < pow36((n - 1) as nat)) by (nonlinear_arith)
            requires
                y < 36 * pow36((n - 1) as nat),
        ;
        lemma_base36_digits_injective(x / 36, y / 36, (n - 1) as nat);
        assert(x == 36 * (x / 36) + x % 36);
        assert(y == 36 * (y / 36) + y % 36);
    }
}

/// The setup URI can be read back: two setup URIs with setup ids of the same length
/// are equal only when their packed payloads and their setup ids are equal.
pub proof fn lemma_setup_uri_determines_payload(
    v1: u64,
    r1: u64,
    c1: u64,
    f1: u64,
    p1: u64,
    id1: Seq<char>,
    v2: u64,
    r2: u64,
    c2: u64,
    f2: u64,
    p2: u64,
    id2: Seq<char>,
)
    requires
        setup_uri_spec(v1, r1, c1, f1, p1, id1) == setup_uri_spec(v2, r2, c2, f2, p2, id2),
        id1.len() == id2.len(),
    ensures
        setup_payload(v1, r1, c1, f1, p1) == setup_payload(v2, r2, c2, f2, p2),
        id1 == id2,
{
    let x = setup_payload(v1, r1, c1, f1, p1);
    let y = setup_payload(v2, r2, c2, f2, p2);
    lemma_low_first_reversed(x as nat, 9);
    lemma_low_first_reversed(y as nat, 9);
    let u1 = setup_uri_spec(v1, r1, c1, f1, p1, id1);
    let u2 = setup_uri_spec(v2, r2, c2, f2, p2, id2);
    let pre = "X-HM://"@;
    let n = pre.len() as int;
    let dx = base36_digits(x as nat, 9);
    let dy = base36_digits(y as nat, 9);
    assert(u1.subrange(n, n + 9) =~= dx);
    assert(u2.subrange(n, n + 9) =~= dy);
    assert(u1.subrange(n + 9, u1.len() as int) =~= id1);
    assert(u2.subrange(n + 9, u2.len() as int) =~= id2);
    assert(x < 0x4000_0000_0000) by (bit_vector)
        requires
            x == (((((((v1 & 7) << 4u64) | (r1 & 0xf)) << 8u64) | (c1 & 0xff)) << 4u64) | (f1
                & 0xf)) << 27u64 | (p1 & 0x7fffffff),
    ;
    assert(y < 0x4000_0000_0000) by (bit_vector)
        requires
            y == (((((((v2 & 7) << 4u64) | (r2 & 0xf)) << 8u64) | (c2 & 0xff)) << 4u64) | (f2
                & 0xf)) << 27u64 | (p2 & 0x7fffffff),
    ;
    assert(pow36(9) == 101559956668416) by {
        reveal_with_fuel(pow36, 10);
    }
    lemma_base36_digits_injective(x as nat, y as nat, 9);
}

/// Builds the setup URI of a payload.
pub fn gen_homekit_setup_uri(params: &HomeKitSetupUri) -> (uri: String)
    ensures
        uri@ == setup_uri_spec(
            params.version,
            params.reserved,
            params.category,
            params.flags,
            params.password,
            params.setup_id@,
        ),
{
    let version = params.version;
    let reserved = params.reserved;
    let category = params.category;
    let flags = params.flags;
    let password = params.password;
    let mut payload: u64 = 0;
    payload |= (version & 0x7);

    payload <<= 4;
    payload |= (reserved & 0xf);

    payload <<= 8;
    payload |= (category & 0xff);

    payload <<= 4;
    payload |= (flags & 0xf);

    payload <<= 27;
    payload |= password & 0x7fffffff;

    let ghost full = payload;
    assert(full == setup_payload(version, reserved, category, flags, password)) by (bit_vector)
        requires
            full == ((((((0u64 | (version & 7)) << 4u64) | (reserved & 0xf)) << 8u64 | (category
                & 0xff)) << 4u64 | (flags & 0xf)) << 27u64) | (password & 0x7fffffff),
    ;

    let mut encoded: Vec<char> = Vec::new();
    let mut i: usize = 0;
    while i < 9
        invariant
            i <= 9,
            encoded@ + base36_digits_low_first(payload as nat, (9 - i) as nat)
                == base36_digits_low_first(full as nat, 9),
        decreases 9 - i,
    {
        let ghost before = encoded@;
        encoded.push(BASE36[(payload % 36) as usize]);
        assert(before + base36_digits_low_first(payload as nat, (9 - i) as nat) =~= encoded@
            + base36_digits_low_first((payload / 36) as nat, (9 - i - 1) as nat));
        payload /= 36;
        i += 1;
    }
    assert(encoded@ =~= base36_digits_low_first(full as nat, 9));
    proof {
        lemma_low_first_reversed(full as nat, 9);
    }

    let mut uri = String::from_str("X-HM://");
    let mut k: usize = 0;
    while k < 9
        invariant
            k <= 9,
            encoded@.len() == 9,
            uri@ == "X-HM://"@ + encoded@.reverse().take(k as int),
        decreases 9 - k,
    {
        let ghost before = uri@;
        push_char(&mut uri, encoded[8 - k]);
        assert(encoded@.reverse().take((k + 1) as int) =~= encoded@.reverse().take(k as int).push(
            encoded@[8 - k],
        ));
        k += 1;
    }
    assert(encoded@.reverse().take(9) =~= encoded@.reverse());
    uri.append(params.setup_id.as_str());
    uri
}

/// The setup URI of a bridge-style payload with the given setup code, category and
/// setup id (flags 2, version and reserved bits 0).
pub fn gen_homekit_setup_uri_default(pin_code: u64, category: u64, setup_id: String) -> (uri: String)
    ensures
        uri@ == setup_uri_spec(0, 0, category, 2, pin_code, setup_id@),
{
    let defaults = HomeKitSetupUri::default();
    gen_homekit_setup_uri(
        &HomeKitSetupUri {
            password: pin_code,
            setup_id,
            category,
            version: defaults.version,
            reserved: defaults.reserved,
            flags: defaults.flags,
        },
    )
}

} // verus!
