use homelink::hap::codes::{
    accept_pin_code, compute_setup_hash, pin_code_from_str, rand_mac_addr, rand_pin_code_attempt, rand_setup_id,
    setup_hash_from_digest,
};
use homelink::hap::setup_uri::{gen_homekit_setup_uri, gen_homekit_setup_uri_default, HomeKitSetupUri};

fn uri_params(password: u64, setup_id: &str, category: u64) -> HomeKitSetupUri {
    let d = HomeKitSetupUri::default();
    HomeKitSetupUri {
        password,
        setup_id: setup_id.to_string(),
        category,
        version: d.version,
        reserved: d.reserved,
        flags: d.flags,
    }
}

#[test]
fn rand_utils_test2() {
    let bytes: [u8; 6] = [17, 231, 84, 31, 202, 172];
    assert_eq!(bytes.len(), 6);
}

#[test]
fn test_code() {
    let uri = gen_homekit_setup_uri(&uri_params(29826556, "3QYT", 8));
    println!("{}", uri);
    assert_eq!(uri, "X-HM://0081210CC3QYT");
}

#[test]
fn test_output() {
    let uri = gen_homekit_setup_uri(&uri_params(11122333, "F1PV", 2));
    println!("{}", uri);
    assert_eq!(uri, "X-HM://0023NJY59F1PV");
}

#[test]
fn test_compute_hash() {
    let setup_id = "F1PV";
    let mac = "5E:56:EA:F2:6E:7C";
    let hash = compute_setup_hash(setup_id, mac);
    println!("{}", hash);
    assert_eq!(hash, "Wurniw==");
}

#[test]
fn setup_hash_upper_cases_the_mac() {
    assert_eq!(compute_setup_hash("F1PV", "5e:56:ea:f2:6e:7c"), "Wurniw==");
}

#[test]
fn setup_hash_takes_first_four_digest_bytes() {
    assert_eq!(setup_hash_from_digest(&[0, 0, 0, 0, 9, 9]), "AAAAAA==");
    assert_eq!(setup_hash_from_digest(&[0xff, 0xff, 0xff, 0xff]), "/////w==");
}

#[test]
fn test_setup_id() {
    for _ in 0..20 {
        let id = rand_setup_id();
        println!("{}", id);
        assert_eq!(id.chars().count(), 4);
        assert!(id.chars().all(|c| c.is_ascii_digit() || c.is_ascii_uppercase()));
    }
}

#[test]
fn test_rand_pin_code() {
    let code = loop {
        if let Some(n) = rand_pin_code_attempt() {
            break n;
        }
    };
    println!("{}", code);
    assert!((10_000_000..99_999_999).contains(&code));
    assert_ne!(code, 11111111);
    assert_ne!(code, 12345678);
}

#[test]
fn invalid_pin_codes_are_refused() {
    for n in [0u32, 11111111, 22222222, 33333333, 44444444, 55555555, 66666666, 77777777, 88888888, 99999999, 12345678, 87654321] {
        assert_eq!(accept_pin_code(n), None);
    }
    assert_eq!(accept_pin_code(29826556), Some(29826556));
    assert_eq!(accept_pin_code(11122333), Some(11122333));
}

#[test]
fn pin_code_digits() {
    assert_eq!(pin_code_from_str("11122333"), [1, 1, 1, 2, 2, 3, 3, 3]);
    assert_eq!(pin_code_from_str("123"), [1, 2, 3, 0, 0, 0, 0, 0]);
    assert_eq!(pin_code_from_str("98765432xyz"), [9, 8, 7, 6, 5, 4, 3, 2]);
    assert_eq!(pin_code_from_str(""), [0; 8]);
}

#[test]
fn default_setup_uri_params() {
    let d = HomeKitSetupUri::default();
    assert_eq!((d.category, d.password, d.version, d.reserved, d.flags), (2, 0, 0, 0, 2));
    assert!(d.setup_id.is_empty());
}

#[test]
fn default_uri_matches_explicit_params() {
    assert_eq!(
        gen_homekit_setup_uri_default(11122333, 2, "F1PV".to_string()),
        gen_homekit_setup_uri(&uri_params(11122333, "F1PV", 2))
    );
    assert_eq!(gen_homekit_setup_uri_default(29826556, 8, "3QYT".to_string()), "X-HM://0081210CC3QYT");
}

#[test]
fn setup_uri_packs_every_field() {
    let p = HomeKitSetupUri {
        category: 0,
        password: 0,
        setup_id: String::new(),
        version: 0,
        reserved: 0,
        flags: 0,
    };
    assert_eq!(gen_homekit_setup_uri(&p), "X-HM://000000000");
    let p = HomeKitSetupUri {
        category: 0xff,
        password: 0x7fffffff,
        setup_id: "ZZZZ".to_string(),
        version: 7,
        reserved: 0xf,
        flags: 0xf,
    };
    // all 46 payload bits set: 2^46 - 1 = 70368744177663
    assert_eq!(gen_homekit_setup_uri(&p), "X-HM://OXYYDEZGFZZZZ");
}

#[test]
fn test_rand_mac_addr() {
    let a = rand_mac_addr();
    let b = rand_mac_addr();
    let c = rand_mac_addr();
    println!("{:02X?}", a);
    println!("{:02X?}", b);
    println!("{:02X?}", c);
    assert_eq!(a.len(), 6);
}

#[test]
fn setup_hash_ignores_mac_case() {
    let upper = compute_setup_hash("F1PV", "5E:56:EA:F2:6E:7C");
    let lower = compute_setup_hash("F1PV", "5e:56:ea:f2:6e:7c");
    assert_eq!(upper, lower);
    assert_eq!(upper.len(), 8);
    assert!(upper.ends_with("=="));
}

#[test]
fn setup_hash_of_known_digests() {
    assert_eq!(setup_hash_from_digest(&[0u8; 64]), "AAAAAA==");
    assert_eq!(setup_hash_from_digest(&[0xffu8; 64]), "/////w==");
    assert_eq!(setup_hash_from_digest(&[0x4d, 0x61, 0x6e, 0x01]), "TWFuAQ==");
}
