use hdwallet::error::HDWalletError;
use hdwallet::key_chain::{DefaultKeyChain, Derivation, KeyChain};
use hdwallet::{ChainPath, ChainPathError, ExtendedPrivKey, KeyIndex};

const CHILD01_KEY: [u8; 32] = [
    44, 203, 110, 199, 39, 135, 253, 192, 94, 83, 1, 41, 5, 180, 114, 145, 196, 238, 125, 109,
    122, 242, 1, 158, 12, 137, 182, 112, 2, 40, 75, 68,
];
const CHILD01_CHAIN_CODE: [u8; 32] = [
    131, 246, 80, 102, 213, 8, 240, 162, 7, 218, 205, 110, 100, 35, 50, 216, 133, 70, 51, 154,
    134, 88, 150, 49, 42, 75, 137, 59, 135, 167, 171, 85,
];

fn master() -> ExtendedPrivKey {
    let seed: Vec<u8> = (0u8..16).collect();
    ExtendedPrivKey::with_seed(&seed).unwrap()
}

#[test]
fn key_chain_root_path_gives_master() {
    let chain = DefaultKeyChain::new(master());
    let (key, derivation) = chain.derive_private_key(ChainPath::new("m")).unwrap();
    assert_eq!(key, master());
    assert_eq!(derivation, Derivation::master());
    assert_eq!(derivation, Derivation::default());
    assert_eq!(derivation.depth, 0);
}

#[test]
fn key_chain_one_step() {
    let m = master();
    let chain = DefaultKeyChain::new(m.clone());
    let (key, derivation) = chain.derive_private_key(ChainPath::new("m/0")).unwrap();
    assert_eq!(key, m.derive_private_key(KeyIndex::Normal(0)).unwrap());
    assert_eq!(derivation.depth, 1);
    assert_eq!(derivation.parent_key, Some(m));
    assert_eq!(derivation.key_index, Some(KeyIndex::Normal(0)));
}

#[test]
fn key_chain_two_steps() {
    let m = master();
    let chain = DefaultKeyChain::new(m.clone());
    let (key, derivation) = chain.derive_private_key(ChainPath::new("m/0/1")).unwrap();
    let parent = m.derive_private_key(KeyIndex::Normal(0)).unwrap();
    assert_eq!(key.private_key, CHILD01_KEY.to_vec());
    assert_eq!(key.chain_code, CHILD01_CHAIN_CODE.to_vec());
    assert_eq!(derivation.depth, 2);
    assert_eq!(derivation.parent_key, Some(parent));
    assert_eq!(derivation.key_index, Some(KeyIndex::Normal(1)));
}

#[test]
fn key_chain_rejects_unanchored_path() {
    let chain = DefaultKeyChain::new(master());
    let r = chain.derive_private_key(ChainPath::new("0/1"));
    assert!(matches!(r, Err(HDWalletError::ChainPathErr(ChainPathError::Invalid))));
    let r = chain.derive_private_key(ChainPath::new(""));
    assert!(matches!(r, Err(HDWalletError::ChainPathErr(ChainPathError::Invalid))));
}

#[test]
fn key_chain_rejects_root_after_start() {
    let chain = DefaultKeyChain::new(master());
    let r = chain.derive_private_key(ChainPath::new("m/0/m"));
    assert!(matches!(r, Err(HDWalletError::ChainPathErr(ChainPathError::Invalid))));
}

#[test]
fn key_chain_passes_parse_errors_on() {
    let chain = DefaultKeyChain::new(master());
    let r = chain.derive_private_key(ChainPath::new("m//1"));
    assert!(matches!(r, Err(HDWalletError::ChainPathErr(ChainPathError::Blank))));
    let r = chain.derive_private_key(ChainPath::new("m/1/abc"));
    assert!(matches!(r, Err(HDWalletError::ChainPathErr(ChainPathError::Invalid))));
    let r = chain.derive_private_key(ChainPath::new("m/0H"));
    assert!(matches!(
        r,
        Err(HDWalletError::ChainPathErr(ChainPathError::KeyIndexOutOfRange))
    ));
}

#[test]
fn path_error_converts_into_wallet_error() {
    let e: HDWalletError = ChainPathError::Blank.into();
    assert!(matches!(e, HDWalletError::ChainPathErr(ChainPathError::Blank)));
}
