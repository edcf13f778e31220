use vstd::prelude::*;
use vstd::slice::{slice_subrange, slice_to_vec};

use crate::crypto::{
    add_public_tweak, add_secret_tweak, be_bytes, be_int, check_public_key, check_secret_key,
    curve_order, hmac_sha512, hmac_sha512_of, is_valid_secret, public_key_accepts,
    public_key_from_secret, public_key_of, tweaked_public_key,
};
use crate::error::{Failure, HDWalletError};
use crate::key_index::KeyIndex;
use crate::traits::{Deserialize, Serialize};

verus! {

/// The HMAC key under which a seed becomes a master key: "Enclave seed".
pub open spec fn seed_key() -> Seq<u8> {
    seq![69u8, 110, 99, 108, 97, 118, 101, 32, 115, 101, 101, 100]
}

/// An extended private key as a value: the secret key's 32 bytes and the chain code.
pub struct PrivKeyModel {
    pub private_key: Seq<u8>,
    pub chain_code: Seq<u8>,
}

/// An extended public key as a value: the compressed point and the chain code.
pub struct PubKeyModel {
    pub public_key: Seq<u8>,
    pub chain_code: Seq<u8>,
}

impl PrivKeyModel {
    pub open spec fn wf(self) -> bool {
        is_valid_secret(self.private_key) && self.chain_code.len() == 32
    }

    /// The extended public key of this key: its point, same chain code.
    pub open spec fn public(self) -> PubKeyModel {
        PubKeyModel { public_key: public_key_of(self.private_key), chain_code: self.chain_code }
    }
}

impl PubKeyModel {
    pub open spec fn wf(self) -> bool {
        self.public_key.len() == 33 && public_key_accepts(self.public_key)
            && self.chain_code.len() == 32
    }
}

/// The four bytes of `i`, most significant first.
pub open spec fn index_bytes(i: u32) -> Seq<u8> {
    seq![
        (i / 0x100_0000) as u8,
        ((i / 0x1_0000) % 0x100) as u8,
        ((i / 0x100) % 0x100) as u8,
        (i % 0x100) as u8,
    ]
}

/// The MAC of a derivation step: keyed by the chain code, over the parent's point
/// and the index.
pub open spec fn ckd_mac(chain_code: Seq<u8>, point: Seq<u8>, i: u32) -> Seq<u8> {
    hmac_sha512_of(chain_code, point + index_bytes(i))
}

/// The master key of a seed, if the left half of its MAC is a valid secret key.
pub open spec fn master_from_seed(seed: Seq<u8>) -> Option<PrivKeyModel> {
    let mac = hmac_sha512_of(seed_key(), seed);
    if is_valid_secret(mac.take(32)) {
        Some(PrivKeyModel { private_key: mac.take(32), chain_code: mac.skip(32) })
    } else {
        None
    }
}

/// Private child key derivation for a normal index.
pub open spec fn ckd_priv(k: PrivKeyModel, i: KeyIndex) -> Result<PrivKeyModel, Failure> {
    if !i.valid() {
        Err(Failure::IndexOutOfRange)
    } else {
        let mac = ckd_mac(k.chain_code, public_key_of(k.private_key), i.raw());
        let il = mac.take(32);
        let sum = (be_int(il) + be_int(k.private_key)) % curve_order();
        if !is_valid_secret(il) || sum == 0 {
            Err(Failure::Curve)
        } else {
            Ok(PrivKeyModel { private_key: be_bytes(sum, 32), chain_code: mac.skip(32) })
        }
    }
}

/// Public child key derivation for a normal index.
pub open spec fn ckd_pub(k: PubKeyModel, i: KeyIndex) -> Result<PubKeyModel, Failure> {
    if !i.valid() {
        Err(Failure::IndexOutOfRange)
    } else {
        let mac = ckd_mac(k.chain_code, k.public_key, i.raw());
        let il = mac.take(32);
        if !is_valid_secret(il) {
            Err(Failure::Curve)
        } else {
            match tweaked_public_key(k.public_key, il) {
                Some(q) => Ok(PubKeyModel { public_key: q, chain_code: mac.skip(32) }),
                None => Err(Failure::Curve),
            }
        }
    }
}

#[derive(Debug, Clone, PartialEq, Eq)]
pub struct ExtendedPrivKey {
    pub private_key: Vec<u8>,
    pub chain_code: Vec<u8>,
}

impl View for ExtendedPrivKey {
    type V = PrivKeyModel;

    open spec fn view(&self) -> PrivKeyModel {
        PrivKeyModel { private_key: self.private_key@, chain_code: self.chain_code@ }
    }
}

/// What a fallible operation on private keys gave, as a value.
pub open spec fn priv_outcome(r: Result<ExtendedPrivKey, HDWalletError>) -> Result<
    PrivKeyModel,
    Failure,
> {
    match r {
        Ok(k) => Ok(k@),
        Err(e) => Err(e.kind()),
    }
}

/// What a fallible operation on public keys gave, as a value.
pub open spec fn pub_outcome(r: Result<ExtendedPubKey, HDWalletError>) -> Result<
    PubKeyModel,
    Failure,
> {
    match r {
        Ok(k) => Ok(k@),
        Err(e) => Err(e.kind()),
    }
}

/// The big-endian bytes of `i` appended to `buf`.
fn push_index_bytes(buf: &mut Vec<u8>, i: u32)
    ensures
        final(buf)@ == old(buf)@ + index_bytes(i),
{
    buf.push((i / 0x100_0000) as u8);
    buf.push(((i / 0x1_0000) % 0x100) as u8);
    buf.push(((i / 0x100) % 0x100) as u8);
    buf.push((i % 0x100) as u8);
    assert(final(buf)@ =~= old(buf)@ + index_bytes(i));
}

/// `a` followed by `b`.
fn concat_bytes(a: &[u8], b: &[u8]) -> (r: Vec<u8>)
    ensures
        r@ == a@ + b@,
{
    let mut buf = slice_to_vec(a);
    let mut k: usize = 0;
    while k < b.len()
        invariant
            k <= b@.len(),
            buf@ == a@ + b@.take(k as int),
        decreases b@.len() - k,
    {
        buf.push(b[k]);
        k = k + 1;
        assert(buf@ =~= a@ + b@.take(k as int));
    }
    assert(b@.take(b@.len() as int) =~= b@);
    buf
}

/// The 64-byte MAC split in its two halves.
fn split_mac(mac: &Vec<u8>) -> (r: (Vec<u8>, Vec<u8>))
    requires
        mac@.len() == 64,
    ensures
        r.0@ == mac@.take(32),
        r.1@ == mac@.skip(32),
{
    let left = slice_to_vec(slice_subrange(mac.as_slice(), 0, 32));
    let right = slice_to_vec(slice_subrange(mac.as_slice(), 32, 64));
    assert(left@ =~= mac@.take(32));
    assert(right@ =~= mac@.skip(32));
    (left, right)
}

impl ExtendedPrivKey {
    /// Generate an ExtendedPrivKey from seed
    pub fn with_seed(seed: &[u8]) -> (r: Result<ExtendedPrivKey, HDWalletError>)
        ensures
            r matches Ok(k) ==> master_from_seed(seed@) == Some(k@) && k@.wf(),
            r matches Err(e) ==> master_from_seed(seed@) is None && e.kind() == Failure::Curve,
    {
        let key: [u8; 12] = [69, 110, 99, 108, 97, 118, 101, 32, 115, 101, 101, 100];
        assert(key@ =~= seed_key());
        let mac = hmac_sha512(key.as_slice(), seed);
        let (private_key, chain_code) = split_mac(&mac);
        match check_secret_key(private_key.as_slice()) {
            Ok(()) => Ok(ExtendedPrivKey { private_key, chain_code }),
            Err(e) => Err(HDWalletError::Secp256Error(e)),
        }
    }

    /// Derive a child key from ExtendedPrivKey.
    pub fn derive_private_key(&self, key_index: KeyIndex) -> (r: Result<
        ExtendedPrivKey,
        HDWalletError,
    >)
        requires
            self@.wf(),
        ensures
            priv_outcome(r) == ckd_priv(self@, key_index),
            r matches Ok(k) ==> k@.wf(),
    {
        if !key_index.is_valid() {
            return Err(HDWalletError::KeyIndexOutOfRange);
        }
        let index = match key_index {
            KeyIndex::Normal(i) => i,
        };
        let mut msg = public_key_from_secret(self.private_key.as_slice());
        push_index_bytes(&mut msg, index);
        let mac = hmac_sha512(self.chain_code.as_slice(), msg.as_slice());
        let (tweak, chain_code) = split_mac(&mac);
        if let Err(e) = check_secret_key(tweak.as_slice()) {
            return Err(HDWalletError::Secp256Error(e));
        }
        match add_secret_tweak(tweak.as_slice(), self.private_key.as_slice()) {
            Ok(private_key) => Ok(ExtendedPrivKey { private_key, chain_code }),
            Err(e) => Err(HDWalletError::Secp256Error(e)),
        }
    }
}

/// ExtendedPubKey is used for public child key derivation.
#[derive(Debug, Clone, PartialEq, Eq)]
pub struct ExtendedPubKey {
    pub public_key: Vec<u8>,
    pub chain_code: Vec<u8>,
}

impl View for ExtendedPubKey {
    type V = PubKeyModel;

    open spec fn view(&self) -> PubKeyModel {
        PubKeyModel { public_key: self.public_key@, chain_code: self.chain_code@ }
    }
}

impl ExtendedPubKey {
    /// Derive public normal child key from ExtendedPubKey,
    /// will return error if key_index is a hardened key.
    ///
    /// On the public key of a private key `k`, this gives the public key of the
    /// private child of `k`, and fails where that derivation fails.
    pub fn derive_public_key(&self, key_index: KeyIndex) -> (r: Result<
        ExtendedPubKey,
        HDWalletError,
    >)
        requires
            self@.wf(),
        ensures
            pub_outcome(r) == ckd_pub(self@, key_index),
            r matches Ok(k) ==> k@.wf(),
            forall|k: PrivKeyModel|
                k.wf() && #[trigger] k.public() == self@ ==> match ckd_priv(k, key_index) {
                    Ok(c) => pub_outcome(r) == Ok::<PubKeyModel, Failure>(c.public()),
                    Err(f) => pub_outcome(r) == Err::<PubKeyModel, Failure>(f),
                },
    {
        if !key_index.is_valid() {
            return Err(HDWalletError::KeyIndexOutOfRange);
        }
        let index = match key_index {
            KeyIndex::Normal(i) => i,
        };
        let mut msg = slice_to_vec(self.public_key.as_slice());
        push_index_bytes(&mut msg, index);
        let mac = hmac_sha512(self.chain_code.as_slice(), msg.as_slice());
        let (tweak, chain_code) = split_mac(&mac);
        if let Err(e) = check_secret_key(tweak.as_slice()) {
            return Err(HDWalletError::Secp256Error(e));
        }
        let result = add_public_tweak(self.public_key.as_slice(), tweak.as_slice());
        let r = match result {
            Ok(public_key) => Ok(ExtendedPubKey { public_key, chain_code }),
            Err(e) => Err(HDWalletError::Secp256Error(e)),
        };
        assert forall|k: PrivKeyModel| k.wf() && #[trigger] k.public() == self@ implies match ckd_priv(
            k,
            key_index,
        ) {
            Ok(c) => pub_outcome(r) == Ok::<PubKeyModel, Failure>(c.public()),
            Err(f) => pub_outcome(r) == Err::<PubKeyModel, Failure>(f),
        } by {
            assert(public_key_of(k.private_key) == self.public_key@);
            assert(be_int(k.private_key) + be_int(tweak@) == be_int(tweak@) + be_int(k.private_key));
        }
        r
    }

    /// ExtendedPubKey from ExtendedPrivKey
    pub fn from_private_key(extended_key: &ExtendedPrivKey) -> (r: Self)
        requires
            extended_key@.wf(),
        ensures
            r@ == extended_key@.public(),
            r@.wf(),
    {
        let public_key = public_key_from_secret(extended_key.private_key.as_slice());
        let chain_code = slice_to_vec(extended_key.chain_code.as_slice());
        ExtendedPubKey { public_key, chain_code }
    }
}


impl Serialize<Vec<u8>> for ExtendedPrivKey {
    /// The 32 bytes of the secret key, then the chain code.
    open spec fn encodes(&self, t: Vec<u8>) -> bool {
        t@ == self.private_key@ + self.chain_code@
    }

    fn serialize(&self) -> (r: Vec<u8>) {
        concat_bytes(self.private_key.as_slice(), self.chain_code.as_slice())
    }
}

impl<'a> Deserialize<&'a [u8], HDWalletError> for ExtendedPrivKey {
    /// Succeeds on 64 bytes whose first 32 are a valid secret key; the other 32
    /// are the chain code.
    open spec fn decodes(t: &'a [u8], r: Result<Self, HDWalletError>) -> bool {
        if t@.len() == 64 && is_valid_secret(t@.take(32)) {
            r matches Ok(k) && k.private_key@ == t@.take(32) && k.chain_code@ == t@.skip(32)
        } else {
            r matches Err(e) && e.kind() == Failure::Curve
        }
    }

    fn deserialize(data: &'a [u8]) -> (r: Result<Self, HDWalletError>) {
        if data.len() != 64 {
            // an input of the wrong size holds no secret key: the curve library
            // refuses an empty one with its own error
            return match check_secret_key(slice_subrange(data, 0, 0)) {
                Ok(()) => Err(HDWalletError::KeyIndexOutOfRange),
                Err(e) => Err(HDWalletError::Secp256Error(e)),
            };
        }
        let private_key = slice_to_vec(slice_subrange(data, 0, 32));
        if let Err(e) = check_secret_key(private_key.as_slice()) {
            return Err(HDWalletError::Secp256Error(e));
        }
        let chain_code = slice_to_vec(slice_subrange(data, 32, data.len()));
        assert(private_key@ =~= data@.take(32));
        assert(chain_code@ =~= data@.skip(32));
        Ok(ExtendedPrivKey { private_key, chain_code })
    }
}

impl Serialize<Vec<u8>> for ExtendedPubKey {
    /// The 33 bytes of the compressed point, then the chain code.
    open spec fn encodes(&self, t: Vec<u8>) -> bool {
        t@ == self.public_key@ + self.chain_code@
    }

    fn serialize(&self) -> (r: Vec<u8>) {
        concat_bytes(self.public_key.as_slice(), self.chain_code.as_slice())
    }
}

impl<'a> Deserialize<&'a [u8], HDWalletError> for ExtendedPubKey {
    /// Succeeds on 65 bytes whose first 33 parse as a point; the other 32 are the
    /// chain code.
    open spec fn decodes(t: &'a [u8], r: Result<Self, HDWalletError>) -> bool {
        if t@.len() == 65 && public_key_accepts(t@.take(33)) {
            r matches Ok(k) && k.public_key@ == t@.take(33) && k.chain_code@ == t@.skip(33)
        } else {
            r matches Err(e) && e.kind() == Failure::Curve
        }
    }

    fn deserialize(data: &'a [u8]) -> (r: Result<Self, HDWalletError>) {
        if data.len() != 65 {
            // an input of the wrong size holds no point: the curve library refuses
            // an empty one with its own error
            return match check_public_key(slice_subrange(data, 0, 0)) {
                Ok(()) => Err(HDWalletError::KeyIndexOutOfRange),
                Err(e) => Err(HDWalletError::Secp256Error(e)),
            };
        }
        let public_key = slice_to_vec(slice_subrange(data, 0, 33));
        if let Err(e) = check_public_key(public_key.as_slice()) {
            return Err(HDWalletError::Secp256Error(e));
        }
        let chain_code = slice_to_vec(slice_subrange(data, 33, data.len()));
        assert(public_key@ =~= data@.take(33));
        assert(chain_code@ =~= data@.skip(33));
        Ok(ExtendedPubKey { public_key, chain_code })
    }
}

/// Deserializing the serialization of a valid extended private key gives the key back.
pub proof fn lemma_priv_codec_round_trip(
    k: ExtendedPrivKey,
    serialized: Vec<u8>,
    data: &[u8],
    r: Result<ExtendedPrivKey, HDWalletError>,
)
    requires
        k@.wf(),
        k.encodes(serialized),
        data@ == serialized@,
        ExtendedPrivKey::decodes(data, r),
    ensures
        r matches Ok(d) && d@ == k@,
{
    assert(data@.take(32) =~= k.private_key@);
    assert(data@.skip(32) =~= k.chain_code@);
}

/// Deserializing the serialization of a valid extended public key gives the key back.
pub proof fn lemma_pub_codec_round_trip(
    k: ExtendedPubKey,
    serialized: Vec<u8>,
    data: &[u8],
    r: Result<ExtendedPubKey, HDWalletError>,
)
    requires
        k@.wf(),
        k.encodes(serialized),
        data@ == serialized@,
        ExtendedPubKey::decodes(data, r),
    ensures
        r matches Ok(d) && d@ == k@,
{
    assert(data@.take(33) =~= k.public_key@);
    assert(data@.skip(33) =~= k.chain_code@);
}

/// A seed always gives the same master key, or always fails.
pub proof fn lemma_seed_deterministic(
    seed: Seq<u8>,
    first: Result<ExtendedPrivKey, HDWalletError>,
    second: Result<ExtendedPrivKey, HDWalletError>,
)
    requires
        first matches Ok(k) ==> master_from_seed(seed) == Some(k@),
        first is Err ==> master_from_seed(seed) is None,
        second matches Ok(k) ==> master_from_seed(seed) == Some(k@),
        second is Err ==> master_from_seed(seed) is None,
    ensures
        first is Ok <==> second is Ok,
        first matches Ok(a) ==> second matches Ok(b) && a@ == b@,
{
}

} // verus!
