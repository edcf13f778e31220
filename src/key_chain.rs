use vstd::prelude::*;
use vstd::slice::slice_to_vec;

use crate::chain_path::{segments, steps_of, ChainPath, ChainPathError, SubPath, MASTER_SYMBOL};
use crate::error::{Failure, HDWalletError};
use crate::extended_key::{ckd_priv, ExtendedPrivKey, PrivKeyModel};
use crate::key_index::KeyIndex;

verus! {

/// KeyChain derivation info
#[derive(Debug, Clone, PartialEq, Eq)]
pub struct Derivation {
    /// depth, 0 if it is master key
    pub depth: u8,
    /// parent key
    pub parent_key: Option<ExtendedPrivKey>,
    /// key_index which used with parent key to derive this key
    pub key_index: Option<KeyIndex>,
}

/// A derivation record as a value.
pub struct DerivationModel {
    pub depth: nat,
    pub parent_key: Option<PrivKeyModel>,
    pub key_index: Option<KeyIndex>,
}

pub open spec fn key_view(k: Option<ExtendedPrivKey>) -> Option<PrivKeyModel> {
    match k {
        Some(k) => Some(k@),
        None => None,
    }
}

impl View for Derivation {
    type V = DerivationModel;

    open spec fn view(&self) -> DerivationModel {
        DerivationModel {
            depth: self.depth as nat,
            parent_key: key_view(self.parent_key),
            key_index: self.key_index,
        }
    }
}

/// The record of the master key itself.
pub open spec fn master_derivation() -> DerivationModel {
    DerivationModel { depth: 0, parent_key: None, key_index: None }
}

impl Derivation {
    pub fn master() -> (r: Self)
        ensures
            r@ == master_derivation(),
    {
        Derivation { depth: 0, parent_key: None, key_index: None }
    }
}

impl Default for Derivation {
    fn default() -> (r: Self)
        ensures
            r@ == master_derivation(),
    {
        Derivation::master()
    }
}

/// Applies the child steps of a path one after another, from `key` with record `d`.
pub open spec fn walk(
    key: PrivKeyModel,
    d: DerivationModel,
    steps: Seq<Result<SubPath, ChainPathError>>,
) -> Result<(PrivKeyModel, DerivationModel), Failure>
    decreases steps.len(),
{
    if steps.len() == 0 {
        Ok((key, d))
    } else {
        match steps[0] {
            Err(e) => Err(Failure::Path(e)),
            Ok(SubPath::Root) => Err(Failure::Path(ChainPathError::Invalid)),
            Ok(SubPath::Child(i)) => match ckd_priv(key, i) {
                Ok(child) => walk(
                    child,
                    DerivationModel { depth: d.depth + 1, parent_key: Some(key), key_index: Some(i) },
                    steps.drop_first(),
                ),
                Err(f) => Err(f),
            },
        }
    }
}

/// The key that `path` names below `master`, with its derivation record.
pub open spec fn derive_path(master: PrivKeyModel, path: Seq<char>) -> Result<
    (PrivKeyModel, DerivationModel),
    Failure,
> {
    let steps = steps_of(path);
    if steps[0] != Ok::<SubPath, ChainPathError>(SubPath::Root) {
        Err(Failure::Path(ChainPathError::Invalid))
    } else {
        walk(master, master_derivation(), steps.drop_first())
    }
}

pub open spec fn chain_outcome(r: Result<(ExtendedPrivKey, Derivation), HDWalletError>) -> Result<
    (PrivKeyModel, DerivationModel),
    Failure,
> {
    match r {
        Ok((k, d)) => Ok((k@, d@)),
        Err(e) => Err(e.kind()),
    }
}

/// KeyChain is used for derivation HDKey from master_key and chain_path.
pub trait KeyChain {
    /// The key that paths start from.
    spec fn root_key(&self) -> PrivKeyModel;

    /// Derives the key that `chain_path` names; a path holds at most 255 child steps,
    /// which `ChainPath::fits_depth_limit` tells.
    fn derive_private_key(&self, chain_path: ChainPath) -> (r: Result<
        (ExtendedPrivKey, Derivation),
        HDWalletError,
    >)
        requires
            segments(chain_path@).len() <= 256,
        ensures
            chain_outcome(r) == derive_path(self.root_key(), chain_path@),
    ;
}

pub struct DefaultKeyChain {
    master_key: ExtendedPrivKey,
}

impl DefaultKeyChain {
    #[verifier::type_invariant]
    spec fn inv(&self) -> bool {
        self.master_key@.wf()
    }

    pub closed spec fn master(&self) -> PrivKeyModel {
        self.master_key@
    }

    pub fn new(master_key: ExtendedPrivKey) -> (r: Self)
        requires
            master_key@.wf(),
        ensures
            r.master() == master_key@,
    {
        DefaultKeyChain { master_key }
    }
}

/// A copy of `k`.
fn copy_key(k: &ExtendedPrivKey) -> (r: ExtendedPrivKey)
    ensures
        r@ == k@,
{
    ExtendedPrivKey {
        private_key: slice_to_vec(k.private_key.as_slice()),
        chain_code: slice_to_vec(k.chain_code.as_slice()),
    }
}

impl KeyChain for DefaultKeyChain {
    open spec fn root_key(&self) -> PrivKeyModel {
        self.master()
    }

    fn derive_private_key(&self, chain_path: ChainPath) -> (r: Result<
        (ExtendedPrivKey, Derivation),
        HDWalletError,
    >) {
        proof {
            use_type_invariant(self);
        }
        let ghost steps = steps_of(chain_path@);
        let mut iter = chain_path.iter();
        // chain_path must start with root
        match iter.next() {
            Some(Ok(SubPath::Root)) => {},
            _ => {
                return Err(HDWalletError::ChainPathErr(ChainPathError::Invalid));
            },
        }
        let mut key = copy_key(&self.master_key);
        let mut depth: u8 = 0;
        let mut parent_key: Option<ExtendedPrivKey> = None;
        let mut key_index: Option<KeyIndex> = None;
        loop
            invariant
                iter.wf(),
                key@.wf(),
                depth + iter.remaining().len() <= 255,
                walk(
                    key@,
                    DerivationModel {
                        depth: depth as nat,
                        parent_key: key_view(parent_key),
                        key_index,
                    },
                    iter.remaining(),
                ) == derive_path(self.master(), chain_path@),
            decreases iter.remaining().len(),
        {
            match iter.next() {
                None => {
                    return Ok((key, Derivation { depth, parent_key, key_index }));
                },
                Some(Err(e)) => {
                    return Err(HDWalletError::ChainPathErr(e));
                },
                Some(Ok(SubPath::Root)) => {
                    return Err(HDWalletError::ChainPathErr(ChainPathError::Invalid));
                },
                Some(Ok(SubPath::Child(child_key_index))) => {
                    let child_key = match key.derive_private_key(child_key_index) {
                        Ok(k) => k,
                        Err(e) => {
                            return Err(e);
                        },
                    };
                    depth = depth + 1;
                    key_index = Some(child_key_index);
                    parent_key = Some(key);
                    key = child_key;
                },
            }
        }
    }
}

/// A path whose first segment is not the master symbol is refused as invalid,
/// whatever follows it.
pub proof fn lemma_unanchored_path_rejected(master: PrivKeyModel, path: Seq<char>)
    requires
        segments(path)[0] != seq![MASTER_SYMBOL],
    ensures
        derive_path(master, path) == Err::<(PrivKeyModel, DerivationModel), Failure>(
            Failure::Path(ChainPathError::Invalid),
        ),
{
    assert(segments(path).len() > 0);
}

} // verus!
