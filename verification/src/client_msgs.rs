//! Client-lifecycle messages: creation of a new on-chain light client.

use vstd::prelude::*;

use crate::errors::ClientError;
use crate::raw::{Any, AnyView, RawMsgCreateClient, RawMsgCreateClientView};
use crate::signer::Signer;

verus! {

/// Triggers the creation of a new on-chain light client from an initial
/// client state and consensus state, both still in their wire envelopes.
#[derive(Debug, PartialEq, Eq)]
pub struct MsgCreateClient {
    pub client_state: Any,
    pub consensus_state: Any,
    pub signer: Signer,
}

#[verifier::ext_equal]
pub struct MsgCreateClientView {
    pub client_state: AnyView,
    pub consensus_state: AnyView,
    pub signer: Seq<char>,
}

impl View for MsgCreateClient {
    type V = MsgCreateClientView;

    open spec fn view(&self) -> MsgCreateClientView {
        MsgCreateClientView {
            client_state: self.client_state@,
            consensus_state: self.consensus_state@,
            signer: self.signer@,
        }
    }
}

pub open spec fn create_client_raw_valid(rv: RawMsgCreateClientView) -> bool {
    rv.client_state is Some && rv.consensus_state is Some
}

pub open spec fn create_client_from_raw(rv: RawMsgCreateClientView) -> MsgCreateClientView
    recommends
        create_client_raw_valid(rv),
{
    MsgCreateClientView {
        client_state: rv.client_state->Some_0,
        consensus_state: rv.consensus_state->Some_0,
        signer: rv.signer,
    }
}

pub open spec fn create_client_to_raw(mv: MsgCreateClientView) -> RawMsgCreateClientView {
    RawMsgCreateClientView {
        client_state: Some(mv.client_state),
        consensus_state: Some(mv.consensus_state),
        signer: mv.signer,
    }
}

impl MsgCreateClient {
    /// The wire envelope's type URL for this message.
    pub fn type_url(&self) -> (r: String)
        ensures
            r@ == "/ibc.core.client.v1.MsgCreateClient"@,
    {
        String::from_str("/ibc.core.client.v1.MsgCreateClient")
    }

    pub fn new(client_state: Any, consensus_state: Any, signer: Signer) -> (r: MsgCreateClient)
        ensures
            r@.client_state == client_state@,
            r@.consensus_state == consensus_state@,
            r@.signer == signer@,
    {
        MsgCreateClient { client_state, consensus_state, signer }
    }

    /// Validates the wire form: both envelopes must be present.
    pub fn try_from_raw(raw: RawMsgCreateClient) -> (r: Result<MsgCreateClient, ClientError>)
        ensures
            r is Ok <==> create_client_raw_valid(raw@),
            r matches Ok(m) ==> m@ == create_client_from_raw(raw@),
            raw.client_state is None ==> r == Err::<MsgCreateClient, ClientError>(
                ClientError::MissingRawClientState,
            ),
            raw.client_state is Some && raw.consensus_state is None ==> r == Err::<
                MsgCreateClient,
                ClientError,
            >(ClientError::MissingRawConsensusState),
    {
        let client_state = match raw.client_state {
            Some(a) => a,
            None => {
                return Err(ClientError::MissingRawClientState);
            },
        };
        let consensus_state = match raw.consensus_state {
            Some(a) => a,
            None => {
                return Err(ClientError::MissingRawConsensusState);
            },
        };
        Ok(MsgCreateClient::new(client_state, consensus_state, Signer::from_string(raw.signer)))
    }

    /// Renders the message back to its wire form.
    pub fn into_raw(self) -> (r: RawMsgCreateClient)
        ensures
            r@ == create_client_to_raw(self@),
    {
        RawMsgCreateClient {
            client_state: Some(self.client_state),
            consensus_state: Some(self.consensus_state),
            signer: self.signer.account,
        }
    }
}

/// Round trip for `MsgCreateClient`.
pub proof fn lemma_create_client_round_trip(rv: RawMsgCreateClientView)
    requires
        create_client_raw_valid(rv),
    ensures
        create_client_to_raw(create_client_from_raw(rv)) == rv,
        create_client_from_raw(create_client_to_raw(create_client_from_raw(rv)))
            == create_client_from_raw(rv),
{
}

} // verus!
