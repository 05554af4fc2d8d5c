//! What a request takes from its surroundings by default.

use vstd::prelude::*;
use crate::id::AccountId;
use crate::key::PublicKey;

verus! {

/// The configuration that requests are built against: the node they go to,
/// the operator that pays for them, and the key under which the operator
/// signs. It never changes once made, so any number of requests may read
/// it at once.
#[derive(Debug, PartialEq, Eq)]
pub struct Client {
    pub node: AccountId,
    pub operator: AccountId,
    pub operator_key: PublicKey,
}

/// A client as plain values.
pub struct ClientView {
    pub node: AccountId,
    pub operator: AccountId,
    pub operator_key: Seq<u8>,
}

impl View for Client {
    type V = ClientView;

    open spec fn view(&self) -> ClientView {
        ClientView { node: self.node, operator: self.operator, operator_key: self.operator_key@ }
    }
}

impl Client {
    pub fn new(node: AccountId, operator: AccountId, operator_key: PublicKey) -> (client: Client)
        ensures
            client@ == (ClientView { node, operator, operator_key: operator_key@ }),
    {
        Client { node, operator, operator_key }
    }

    /// A copy of this client.
    pub fn duplicate(&self) -> (copy: Client)
        ensures
            copy@ == self@,
    {
        Client {
            node: self.node,
            operator: self.operator,
            operator_key: self.operator_key.duplicate(),
        }
    }
}

} // verus!
