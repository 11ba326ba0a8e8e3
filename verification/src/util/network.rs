//! Network selection for the deployment environment.

use vstd::prelude::*;

verus! {

/// The network a canister build targets.  Reading the environment to pick
/// one happens outside the library.
pub enum DfxNetwork {
    Local,
    Ic,
}

} // verus!
