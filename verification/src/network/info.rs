//! What is known of a network once its backend exists.

use crate::types::AccountId;
use vstd::prelude::*;

verus! {

/// The description of a network. It is set when the backend is built and
/// does not change afterwards.
#[derive(Clone, Debug, PartialEq, Eq)]
pub struct Info {
    /// Name of the network, for people.
    pub name: String,
    /// The account under which new accounts are created and funded.
    pub root_id: AccountId,
    /// Where the credentials of this network's accounts are kept.
    pub keystore_path: String,
    /// The endpoint that the client talks to.
    pub rpc_url: String,
}

} // verus!
