use hdwallet::error::HDWalletError;
use hdwallet::traits::{Deserialize, Serialize};
use hdwallet::{ExtendedPrivKey, ExtendedPubKey, KeyIndex};

const MASTER_KEY: [u8; 32] = [
    68, 112, 150, 209, 191, 112, 189, 111, 131, 48, 174, 241, 219, 212, 220, 187, 63, 130, 169,
    61, 53, 232, 169, 55, 159, 95, 179, 35, 72, 77, 16, 64,
];
const MASTER_CHAIN_CODE: [u8; 32] = [
    83, 211, 63, 194, 201, 119, 86, 232, 210, 133, 164, 192, 153, 23, 27, 94, 78, 52, 139, 145,
    56, 240, 191, 226, 217, 160, 127, 170, 243, 198, 128, 89,
];
const MASTER_PUBLIC: [u8; 33] = [
    2, 87, 159, 32, 127, 98, 15, 103, 49, 25, 51, 155, 148, 193, 192, 25, 125, 165, 17, 133, 168,
    2, 172, 105, 94, 70, 174, 102, 219, 243, 195, 108, 131,
];
const CHILD0_KEY: [u8; 32] = [
    153, 77, 165, 65, 177, 52, 9, 217, 194, 79, 9, 65, 153, 160, 49, 81, 214, 157, 163, 204, 157,
    123, 243, 2, 170, 109, 62, 131, 34, 122, 57, 186,
];
const CHILD0_CHAIN_CODE: [u8; 32] = [
    133, 70, 24, 10, 99, 129, 132, 147, 45, 73, 92, 150, 44, 1, 242, 145, 199, 185, 56, 55, 49,
    90, 250, 213, 98, 10, 192, 67, 238, 34, 161, 251,
];
const CHILD0_PUBLIC: [u8; 33] = [
    3, 149, 105, 56, 53, 241, 55, 10, 149, 91, 159, 184, 196, 166, 48, 245, 166, 211, 166, 20,
    214, 144, 170, 69, 83, 202, 75, 168, 93, 88, 2, 112, 179,
];

fn seed() -> Vec<u8> {
    (0u8..16).collect()
}

fn master() -> ExtendedPrivKey {
    ExtendedPrivKey::with_seed(&seed()).unwrap()
}

#[test]
fn with_seed_gives_expected_master_key() {
    let key = master();
    assert_eq!(key.private_key, MASTER_KEY.to_vec());
    assert_eq!(key.chain_code, MASTER_CHAIN_CODE.to_vec());
}

#[test]
fn with_seed_is_deterministic() {
    for s in [vec![], vec![1u8; 64], seed()] {
        let a = ExtendedPrivKey::with_seed(&s).unwrap();
        let b = ExtendedPrivKey::with_seed(&s).unwrap();
        assert_eq!(a, b);
    }
    assert_ne!(master(), ExtendedPrivKey::with_seed(&[1u8; 16]).unwrap());
}

#[test]
fn derive_private_key_gives_expected_child() {
    let child = master().derive_private_key(KeyIndex::Normal(0)).unwrap();
    assert_eq!(child.private_key, CHILD0_KEY.to_vec());
    assert_eq!(child.chain_code, CHILD0_CHAIN_CODE.to_vec());
}

#[test]
fn derive_private_key_rejects_out_of_range_index() {
    let r = master().derive_private_key(KeyIndex::Normal(2_147_483_648));
    assert!(matches!(r, Err(HDWalletError::KeyIndexOutOfRange)));
}

#[test]
fn from_private_key_gives_expected_point() {
    let public = ExtendedPubKey::from_private_key(&master());
    assert_eq!(public.public_key, MASTER_PUBLIC.to_vec());
    assert_eq!(public.chain_code, MASTER_CHAIN_CODE.to_vec());
}

#[test]
fn derive_public_key_gives_expected_child() {
    let public = ExtendedPubKey::from_private_key(&master());
    let child = public.derive_public_key(KeyIndex::Normal(0)).unwrap();
    assert_eq!(child.public_key, CHILD0_PUBLIC.to_vec());
    assert_eq!(child.chain_code, CHILD0_CHAIN_CODE.to_vec());
}

#[test]
fn derive_public_key_rejects_out_of_range_index() {
    let public = ExtendedPubKey::from_private_key(&master());
    let r = public.derive_public_key(KeyIndex::Normal(u32::MAX));
    assert!(matches!(r, Err(HDWalletError::KeyIndexOutOfRange)));
}

#[test]
fn public_and_private_derivation_commute() {
    let key = master();
    for i in [0u32, 1, 7, 1000, 2_147_483_647] {
        let index = KeyIndex::Normal(i);
        let via_public = ExtendedPubKey::from_private_key(&key).derive_public_key(index).unwrap();
        let via_private =
            ExtendedPubKey::from_private_key(&key.derive_private_key(index).unwrap());
        assert_eq!(via_public, via_private);
    }
}

#[test]
fn private_key_codec_round_trip() {
    let key = master().derive_private_key(KeyIndex::Normal(3)).unwrap();
    let bytes = key.serialize();
    assert_eq!(bytes.len(), 64);
    assert_eq!(&bytes[..32], &key.private_key[..]);
    assert_eq!(ExtendedPrivKey::deserialize(&bytes).unwrap(), key);
}

#[test]
fn public_key_codec_round_trip() {
    let key = ExtendedPubKey::from_private_key(&master());
    let bytes = key.serialize();
    assert_eq!(bytes.len(), 65);
    assert_eq!(&bytes[..33], &MASTER_PUBLIC[..]);
    assert_eq!(ExtendedPubKey::deserialize(&bytes).unwrap(), key);
}

#[test]
fn private_key_deserialize_rejects_bad_scalar() {
    assert!(matches!(
        ExtendedPrivKey::deserialize(&[0u8; 64]),
        Err(HDWalletError::Secp256Error(_))
    ));
    assert!(matches!(
        ExtendedPrivKey::deserialize(&[0xffu8; 64]),
        Err(HDWalletError::Secp256Error(_))
    ));
    assert!(matches!(
        ExtendedPrivKey::deserialize(&MASTER_KEY[..31]),
        Err(HDWalletError::Secp256Error(_))
    ));
}

#[test]
fn public_key_deserialize_rejects_bad_point() {
    let mut bytes = MASTER_PUBLIC.to_vec();
    bytes[0] = 5;
    bytes.extend_from_slice(&MASTER_CHAIN_CODE);
    assert!(matches!(
        ExtendedPubKey::deserialize(&bytes),
        Err(HDWalletError::Secp256Error(_))
    ));
    assert!(matches!(
        ExtendedPubKey::deserialize(&MASTER_PUBLIC[..20]),
        Err(HDWalletError::Secp256Error(_))
    ));
}

#[test]
fn private_key_deserialize_rejects_wrong_length() {
    let mut bytes = MASTER_KEY.to_vec();
    assert!(matches!(
        ExtendedPrivKey::deserialize(&bytes),
        Err(HDWalletError::Secp256Error(_))
    ));
    bytes.extend_from_slice(&MASTER_CHAIN_CODE);
    bytes.push(0);
    assert!(matches!(
        ExtendedPrivKey::deserialize(&bytes),
        Err(HDWalletError::Secp256Error(_))
    ));
    bytes.pop();
    let key = ExtendedPrivKey::deserialize(&bytes).unwrap();
    assert_eq!(key.chain_code, MASTER_CHAIN_CODE.to_vec());
    assert!(matches!(ExtendedPrivKey::deserialize(&[]), Err(HDWalletError::Secp256Error(_))));
}

#[test]
fn public_key_deserialize_rejects_wrong_length() {
    let mut bytes = MASTER_PUBLIC.to_vec();
    assert!(matches!(
        ExtendedPubKey::deserialize(&bytes),
        Err(HDWalletError::Secp256Error(_))
    ));
    bytes.extend_from_slice(&MASTER_CHAIN_CODE);
    bytes.push(0);
    assert!(matches!(
        ExtendedPubKey::deserialize(&bytes),
        Err(HDWalletError::Secp256Error(_))
    ));
    bytes.pop();
    let key = ExtendedPubKey::deserialize(&bytes).unwrap();
    assert_eq!(key.chain_code, MASTER_CHAIN_CODE.to_vec());
}

#[test]
fn derived_chain_codes_are_32_bytes() {
    let key = master();
    let child = key.derive_private_key(KeyIndex::Normal(9)).unwrap();
    let public_child =
        ExtendedPubKey::from_private_key(&key).derive_public_key(KeyIndex::Normal(9)).unwrap();
    assert_eq!(key.chain_code.len(), 32);
    assert_eq!(child.chain_code.len(), 32);
    assert_eq!(public_child.chain_code.len(), 32);
}
