use vstd::prelude::*;

verus! {

/// Every way an operation on a delegation record can fail.
#[derive(Clone, Copy, Debug, PartialEq, Eq, Structural)]
pub enum Errors {
    /// The presented record address is not the one derived for it.
    WrongParameters,
    /// `initialize` was given no allowed destination.
    EmptyAllowList,
    /// `initialize` was given more allowed destinations than a record holds.
    AllowListTooLong,
    /// The caller is not the record's transfer authority, or the destination is not allowed.
    UnknownAccount,
    /// Source and destination hold different assets.
    MintsMismatch,
    /// Transfers are suspended on this record.
    DeactivatedProxy,
    /// Two of owner, transfer authority and deactivate authority coincide.
    SameAccounts,
    /// The caller may not deactivate this record.
    WrongDeactivateAccount,
    /// The caller may not activate this record.
    NotAllowedToActivate,
}

impl Errors {
    /// The message that describes each error.
    pub open spec fn spec_message(self) -> Seq<char> {
        match self {
            Errors::WrongParameters => "Wrong parameters"@,
            Errors::EmptyAllowList => "Allowed Target List is empty"@,
            Errors::AllowListTooLong => "Allowed Target List is too long"@,
            Errors::UnknownAccount => "Unknown account"@,
            Errors::MintsMismatch => "To and From account mints are not the same"@,
            Errors::DeactivatedProxy => "Proxy is deactivated"@,
            Errors::SameAccounts => "Transfer authority should be different from Deactivate authority"@,
            Errors::WrongDeactivateAccount => "Not allowed to deactivate"@,
            Errors::NotAllowedToActivate => "Not allowed to activate"@,
        }
    }

    /// The human-readable message of the error.
    pub fn message(&self) -> (r: &'static str)
        ensures
            r@ == self.spec_message(),
    {
        match self {
            Errors::WrongParameters => "Wrong parameters",
            Errors::EmptyAllowList => "Allowed Target List is empty",
            Errors::AllowListTooLong => "Allowed Target List is too long",
            Errors::UnknownAccount => "Unknown account",
            Errors::MintsMismatch => "To and From account mints are not the same",
            Errors::DeactivatedProxy => "Proxy is deactivated",
            Errors::SameAccounts => "Transfer authority should be different from Deactivate authority",
            Errors::WrongDeactivateAccount => "Not allowed to deactivate",
            Errors::NotAllowedToActivate => "Not allowed to activate",
        }
    }
}

} // verus!
