use vstd::prelude::*;

use crate::chain_path::ChainPathError;

verus! {

#[derive(Debug)]
pub enum HDWalletError {
    /// Index is out of range
    KeyIndexOutOfRange,
    ChainPathErr(ChainPathError),
    Secp256Error(secp256k1::Error),
}

/// The kind of a failure, as contracts speak of it.
pub ghost enum Failure {
    Path(ChainPathError),
    IndexOutOfRange,
    Curve,
}

impl HDWalletError {
    pub open spec fn kind(&self) -> Failure {
        match self {
            HDWalletError::KeyIndexOutOfRange => Failure::IndexOutOfRange,
            HDWalletError::ChainPathErr(e) => Failure::Path(*e),
            HDWalletError::Secp256Error(_) => Failure::Curve,
        }
    }
}

impl From<secp256k1::Error> for HDWalletError {
    fn from(err: secp256k1::Error) -> (r: HDWalletError) {
        HDWalletError::Secp256Error(err)
    }
}

impl vstd::std_specs::convert::FromSpecImpl<secp256k1::Error> for HDWalletError {
    open spec fn obeys_from_spec() -> bool {
        true
    }

    open spec fn from_spec(err: secp256k1::Error) -> HDWalletError {
        HDWalletError::Secp256Error(err)
    }
}

impl From<ChainPathError> for HDWalletError {
    fn from(err: ChainPathError) -> (r: HDWalletError) {
        HDWalletError::ChainPathErr(err)
    }
}

impl vstd::std_specs::convert::FromSpecImpl<ChainPathError> for HDWalletError {
    open spec fn obeys_from_spec() -> bool {
        true
    }

    open spec fn from_spec(err: ChainPathError) -> HDWalletError {
        HDWalletError::ChainPathErr(err)
    }
}

} // verus!
