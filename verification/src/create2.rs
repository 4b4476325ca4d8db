//! The CREATE2 deployer address that an inspector intercepts.
use vstd::prelude::*;
use crate::primitives::Address;

verus! {

/// Holds the CREATE2 deployer address.
#[derive(Clone, Copy, Debug)]
pub struct Create2Inspector {
    /// The CREATE2 deployer address.
    deployer: Address,
}

impl Create2Inspector {
    pub closed spec fn spec_deployer(&self) -> Address {
        self.deployer
    }

    /// Set the CREATE2 deployer address.
    pub fn set_deployer(&mut self, deployer: Address)
        ensures
            final(self).spec_deployer() == deployer,
    {
        self.deployer = deployer;
    }

    /// Returns the CREATE2 deployer address.
    pub fn deployer(&self) -> (r: Address)
        ensures
            r == self.spec_deployer(),
    {
        self.deployer
    }
}

impl Default for Create2Inspector {
    /// An inspector whose deployer is the zero address.
    fn default() -> (r: Self)
        ensures
            r.spec_deployer() == Address::spec_zero(),
    {
        Create2Inspector { deployer: Address::zero() }
    }
}

} // verus!
