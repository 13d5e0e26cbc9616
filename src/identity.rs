use bip39::{Language, Mnemonic};
use tor_hscrypto::pk::HsIdKeypair;
use tor_llcrypto::pk::ed25519::{ExpandedKeypair, Keypair};
use vstd::prelude::*;
use zeroize::Zeroize;

verus! {

#[verifier::external_type_specification]
#[verifier::external_body]
pub struct ExMnemonic(bip39::Mnemonic);

#[verifier::external_type_specification]
#[verifier::external_body]
pub struct ExMnemonicError(bip39::Error);

#[verifier::external_type_specification]
#[verifier::external_body]
pub struct ExKeypair(tor_llcrypto::pk::ed25519::Keypair);

#[verifier::external_type_specification]
#[verifier::external_body]
pub struct ExExpandedKeypair(tor_llcrypto::pk::ed25519::ExpandedKeypair);

#[verifier::external_type_specification]
#[verifier::external_body]
pub struct ExHsIdKeypair(tor_hscrypto::pk::HsIdKeypair);

/// Whether `phrase` is a valid BIP-39 mnemonic over the English word list
/// (known words, a permitted word count, a matching checksum).
pub uninterp spec fn is_english_mnemonic(phrase: Seq<char>) -> bool;

/// Why an identity could not be derived.
#[derive(Clone, Copy, Debug, PartialEq, Eq, Structural)]
pub enum IdentityError {
    /// The recovery phrase is not a valid English BIP-39 mnemonic.
    InvalidMnemonic,
}

impl IdentityError {
    /// A human-readable description.
    pub fn message(&self) -> (r: String)
        ensures
            r@ == "Invalid mnemonic phrase"@,
    {
        proof {
            reveal_strlit("Invalid mnemonic phrase");
        }
        match self {
            IdentityError::InvalidMnemonic => String::from_str("Invalid mnemonic phrase"),
        }
    }
}

/// Relies on bip39::Mnemonic::parse_in with the English word list: it
/// succeeds exactly on valid mnemonics, which depends on the phrase alone.
#[verifier::external_body]
fn parse_english(phrase: &str) -> (r: Result<Mnemonic, bip39::Error>)
    ensures
        r is Ok <==> is_english_mnemonic(phrase@),
{
    Mnemonic::parse_in(Language::English, phrase)
}

/// Relies on bip39::Mnemonic::to_seed: the 64-byte BIP-39 seed of the
/// mnemonic under the passphrase.
#[verifier::external_body]
fn mnemonic_seed(m: &Mnemonic, passphrase: &str) -> (r: [u8; 64]) {
    m.to_seed(passphrase)
}

/// Relies on tor_llcrypto's ed25519::Keypair::from_bytes: the keypair whose
/// secret key is these 32 bytes.
#[verifier::external_body]
fn keypair_from_secret(secret: &[u8; 32]) -> (r: Keypair) {
    Keypair::from_bytes(secret)
}

/// Relies on tor_llcrypto's `From<&Keypair> for ExpandedKeypair`.
#[verifier::external_body]
fn expand_keypair(k: &Keypair) -> (r: ExpandedKeypair) {
    ExpandedKeypair::from(k)
}

/// Relies on tor_hscrypto's `From<ExpandedKeypair> for HsIdKeypair`.
#[verifier::external_body]
fn hsid_from_expanded(k: ExpandedKeypair) -> (r: HsIdKeypair) {
    HsIdKeypair::from(k)
}

/// Relies on zeroize's `Zeroize for [u8; N]`: every byte is overwritten with 0.
#[verifier::external_body]
fn wipe<const N: usize>(b: &mut [u8; N])
    ensures
        final(b)@ == Seq::new(N as nat, |_i: int| 0u8),
{
    b.zeroize()
}

/// The ed25519 secret key taken from a BIP-39 seed: its first 32 bytes.
pub fn secret_from_seed(seed: &[u8; 64]) -> (r: [u8; 32])
    ensures
        r@ == seed@.subrange(0, 32),
{
    let mut out: [u8; 32] = [0u8; 32];
    let mut i: usize = 0;
    while i < 32
        invariant
            i <= 32,
            out@.len() == 32,
            seed@.len() == 64,
            forall|j: int| 0 <= j < i ==> out@[j] == seed@[j],
        decreases 32 - i,
    {
        out.set(i, seed[i]);
        i = i + 1;
    }
    assert(out@ =~= seed@.subrange(0, 32));
    out
}

/// Derives an onion-service identity keypair from a BIP-39 mnemonic and an
/// optional passphrase: the first 32 bytes of the mnemonic's seed are the
/// ed25519 secret key. Fails exactly when the phrase is not a valid English
/// mnemonic. The seed and the secret bytes are wiped before returning.
pub fn hsid_from_mnemonic(phrase: &str, passphrase: &str) -> (r: Result<HsIdKeypair, IdentityError>)
    ensures
        r is Ok <==> is_english_mnemonic(phrase@),
        r matches Err(e) ==> e == IdentityError::InvalidMnemonic,
{
    let mnemonic = match parse_english(phrase) {
        Ok(m) => m,
        Err(_) => {
            return Err(IdentityError::InvalidMnemonic);
        },
    };
    let mut seed = mnemonic_seed(&mnemonic, passphrase);
    let mut secret = secret_from_seed(&seed);
    let keypair = keypair_from_secret(&secret);
    let hs_keypair = hsid_from_expanded(expand_keypair(&keypair));
    wipe(&mut secret);
    wipe(&mut seed);
    Ok(hs_keypair)
}

} // verus!
