use vstd::prelude::*;

verus! {

/// The account that signed the current call, as the host execution context
/// reports it.
///
/// Relies on near_sdk::env::signer_account_id: the identity comes from the
/// host environment, so nothing is promised of the returned text.
#[verifier::external_body]
pub(crate) fn signer_account_id() -> String {
    near_sdk::env::signer_account_id().to_string()
}

} // verus!
