use onion_dispatch::{hsid_from_mnemonic, secret_from_seed, IdentityError};
use tor_hscrypto::pk::{HsId, HsIdKey};

fn onion_id(phrase: &str, passphrase: &str) -> HsId {
    let kp = hsid_from_mnemonic(phrase, passphrase).unwrap();
    HsId::from(HsIdKey::from(&kp))
}

const VALID: &str = "abandon abandon abandon abandon abandon abandon abandon abandon abandon abandon abandon about";

#[test]
fn secret_is_first_half_of_seed() {
    let mut seed = [0u8; 64];
    for (i, b) in seed.iter_mut().enumerate() {
        *b = i as u8 + 1;
    }
    let s = secret_from_seed(&seed);
    assert_eq!(s[0], 1);
    assert_eq!(s[31], 32);
    assert_eq!(&s[..], &seed[..32]);
}

#[test]
fn invalid_mnemonic_is_rejected() {
    let r = hsid_from_mnemonic("not a real mnemonic phrase", "");
    assert!(matches!(r, Err(IdentityError::InvalidMnemonic)));
    assert_eq!(IdentityError::InvalidMnemonic.message(), "Invalid mnemonic phrase");
}

#[test]
fn bad_checksum_is_rejected() {
    let phrase = "abandon abandon abandon abandon abandon abandon abandon abandon abandon abandon abandon abandon";
    assert!(hsid_from_mnemonic(phrase, "").is_err());
}

#[test]
fn valid_mnemonic_derives_identity() {
    assert!(hsid_from_mnemonic(VALID, "").is_ok());
    assert!(hsid_from_mnemonic(VALID, "TREZOR").is_ok());
}

#[test]
fn identity_depends_on_passphrase_and_is_stable() {
    assert!(onion_id(VALID, "") == onion_id(VALID, ""));
    assert!(onion_id(VALID, "") != onion_id(VALID, "TREZOR"));
    let other = "legal winner thank year wave sausage worth useful legal winner thank yellow";
    assert!(onion_id(VALID, "") != onion_id(other, ""));
}

#[test]
fn security_header_set_is_fixed() {
    let h = onion_dispatch::security_headers();
    assert_eq!(h.len(), 6);
    assert_eq!(h[0].0, "Content-Security-Policy");
    assert_eq!(h[1], ("X-Content-Type-Options", "nosniff"));
    assert_eq!(h[2], ("Referrer-Policy", "no-referrer"));
    assert_eq!(h[3], ("X-Frame-Options", "DENY"));
    assert_eq!(h[4], ("Server", "nginx/1.29.4"));
    assert_eq!(h[5].1, "geolocation=(), microphone=(), camera=()");
    assert_eq!(onion_dispatch::MAX_BODY_BYTES, 98304);
}
