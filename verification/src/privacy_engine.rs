//! The privacy engine coordinator and its feature flags.
use vstd::prelude::*;

verus! {

/// Privacy feature flags.
#[derive(Debug, Clone, Copy, PartialEq, Eq, Structural)]
pub struct PrivacyFlags {
    /// Validators stay anonymous.
    pub anonymous_validators: bool,
    /// Transactions are encrypted.
    pub encrypted_transactions: bool,
    /// Governance is private.
    pub private_governance: bool,
    /// Privacy carries across chains.
    pub cross_chain_privacy: bool,
}

impl Default for PrivacyFlags {
    /// All features off.
    fn default() -> (res: Self)
        ensures
            res == (PrivacyFlags {
                anonymous_validators: false,
                encrypted_transactions: false,
                private_governance: false,
                cross_chain_privacy: false,
            }),
    {
        PrivacyFlags {
            anonymous_validators: false,
            encrypted_transactions: false,
            private_governance: false,
            cross_chain_privacy: false,
        }
    }
}

/// The privacy engine coordinator.
pub struct PrivacyEngine {
    privacy_flags: PrivacyFlags,
}

impl PrivacyEngine {
    /// The flags the engine runs with.
    pub closed spec fn flags(&self) -> PrivacyFlags {
        self.privacy_flags
    }

    /// An engine with the given flags.
    pub fn new(privacy_flags: PrivacyFlags) -> (res: Self)
        ensures
            res.flags() == privacy_flags,
    {
        PrivacyEngine { privacy_flags }
    }

    /// The flags the engine was made with.
    pub fn get_privacy_flags(&self) -> (res: &PrivacyFlags)
        ensures
            *res == self.flags(),
    {
        &self.privacy_flags
    }
}

} // verus!
