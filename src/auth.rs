use vstd::prelude::*;

use crate::address::Address;
use crate::errors::Error;

verus! {

/// The hook that decides whether a sweep to a destination, presented with a
/// signature, is authorized. The verification scheme belongs to the host.
pub trait SweepAuthorization {
    /// Whether sweeping to `destination` with `signature` is approved.
    spec fn approves(&self, destination: Address, signature: Seq<u8>) -> bool;

    /// Approves the sweep, or fails with `Unauthorized`.
    fn verify_sweep_authorization(&self, destination: &Address, signature: &[u8; 64]) -> (r:
        Result<(), Error>)
        ensures
            r == (if self.approves(*destination, signature@) {
                Ok::<(), Error>(())
            } else {
                Err::<(), Error>(Error::Unauthorized)
            }),
    ;
}

/// An authorization hook with a fixed answer: approve every sweep, or reject every one.
#[derive(Clone, Copy, Debug)]
pub struct FixedAuthorization {
    pub approve: bool,
}

impl SweepAuthorization for FixedAuthorization {
    open spec fn approves(&self, destination: Address, signature: Seq<u8>) -> bool {
        self.approve
    }

    fn verify_sweep_authorization(&self, destination: &Address, signature: &[u8; 64]) -> (r:
        Result<(), Error>) {
        if self.approve {
            Ok(())
        } else {
            Err(Error::Unauthorized)
        }
    }
}

} // verus!
