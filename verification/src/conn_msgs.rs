//! Connection-handshake messages: the four datagrams of the handshake, and
//! the validation of the `OpenTry` step from its wire form.

use vstd::prelude::*;

use crate::commitment::CommitmentProofBytes;
use crate::connection::{
    counterparty_from_raw, counterparty_raw_valid, counterparty_to_raw, version_from_raw,
    version_raw_valid, version_to_raw, Counterparty, CounterpartyView, Version, VersionView,
};
use crate::errors::ConnectionError;
use crate::height::Height;
use crate::identifier::{valid_identifier, ClientId, ConnectionId};
use crate::raw::{
    Any, AnyView, RawHeight, RawMsgConnectionOpenTry, RawMsgConnectionOpenTryView, RawVersion,
};
use crate::signer::Signer;

verus! {

/// Starts the handshake on chain A.
#[derive(Debug, PartialEq, Eq)]
pub struct MsgConnectionOpenInit {
    pub client_id_on_a: ClientId,
    pub counterparty: Counterparty,
    pub version: Option<Version>,
    pub delay_period_nanos: u64,
    pub signer: Signer,
}

/// Answers the handshake on chain B, carrying proofs of what chain A stored
/// during `OpenInit`.
#[derive(Debug, PartialEq, Eq)]
pub struct MsgConnectionOpenTry {
    /// Client on B that the connection is being opened for.
    pub client_id_on_b: ClientId,
    /// The client state of chain B as chain A stores it, still enveloped.
    pub client_state_of_b_on_a: Any,
    /// Client, connection identifier and prefix of chain A.
    pub counterparty: Counterparty,
    /// Versions supported by chain A.
    pub versions_on_a: Vec<Version>,
    /// Proof of the `ConnectionEnd` chain A stored during `OpenInit`.
    pub proof_conn_end_on_a: CommitmentProofBytes,
    /// Proof that chain A stored a client state of chain B.
    pub proof_client_state_of_b_on_a: CommitmentProofBytes,
    /// Proof that chain A stored a consensus state of chain B.
    pub proof_consensus_state_of_b_on_a: CommitmentProofBytes,
    /// Height at which all the proofs were taken on chain A.
    pub proofs_height_on_a: Height,
    /// Latest height of chain B that updated chain A's client of B.
    pub consensus_height_of_b_on_a: Height,
    pub delay_period_nanos: u64,
    pub signer: Signer,
    /// Optional proof of the host consensus state of chain B itself.
    pub proof_consensus_state_of_b: Option<CommitmentProofBytes>,
    /// Kept only for wire compatibility; handlers ignore it.
    pub previous_connection_id: String,
}

/// Finishes the handshake on chain A.
#[derive(Debug, PartialEq, Eq)]
pub struct MsgConnectionOpenAck {
    pub conn_id_on_a: ConnectionId,
    pub conn_id_on_b: ConnectionId,
    pub client_state_of_a_on_b: Any,
    pub proof_conn_end_on_b: CommitmentProofBytes,
    pub proof_client_state_of_a_on_b: CommitmentProofBytes,
    pub proof_consensus_state_of_a_on_b: CommitmentProofBytes,
    pub proofs_height_on_b: Height,
    pub consensus_height_of_a_on_b: Height,
    pub version: Version,
    pub signer: Signer,
}

/// Finishes the handshake on chain B.
#[derive(Debug, PartialEq, Eq)]
pub struct MsgConnectionOpenConfirm {
    pub conn_id_on_b: ConnectionId,
    pub proof_conn_end_on_a: CommitmentProofBytes,
    pub proof_height_on_a: Height,
    pub signer: Signer,
}

/// The messages the connection handshake processes.
#[derive(Debug, PartialEq, Eq)]
pub enum ConnectionMsg {
    OpenInit(MsgConnectionOpenInit),
    OpenTry(MsgConnectionOpenTry),
    OpenAck(MsgConnectionOpenAck),
    OpenConfirm(MsgConnectionOpenConfirm),
}

#[verifier::ext_equal]
pub struct MsgConnectionOpenTryView {
    pub client_id_on_b: Seq<char>,
    pub client_state_of_b_on_a: AnyView,
    pub counterparty: CounterpartyView,
    pub versions_on_a: Seq<VersionView>,
    pub proof_conn_end_on_a: Seq<u8>,
    pub proof_client_state_of_b_on_a: Seq<u8>,
    pub proof_consensus_state_of_b_on_a: Seq<u8>,
    pub proofs_height_on_a: Height,
    pub consensus_height_of_b_on_a: Height,
    pub delay_period_nanos: u64,
    pub signer: Seq<char>,
    pub proof_consensus_state_of_b: Option<Seq<u8>>,
    pub previous_connection_id: Seq<char>,
}

impl View for MsgConnectionOpenTry {
    type V = MsgConnectionOpenTryView;

    open spec fn view(&self) -> MsgConnectionOpenTryView {
        MsgConnectionOpenTryView {
            client_id_on_b: self.client_id_on_b@,
            client_state_of_b_on_a: self.client_state_of_b_on_a@,
            counterparty: self.counterparty@,
            versions_on_a: self.versions_on_a.deep_view(),
            proof_conn_end_on_a: self.proof_conn_end_on_a@,
            proof_client_state_of_b_on_a: self.proof_client_state_of_b_on_a@,
            proof_consensus_state_of_b_on_a: self.proof_consensus_state_of_b_on_a@,
            proofs_height_on_a: self.proofs_height_on_a,
            consensus_height_of_b_on_a: self.consensus_height_of_b_on_a,
            delay_period_nanos: self.delay_period_nanos,
            signer: self.signer@,
            proof_consensus_state_of_b: match self.proof_consensus_state_of_b {
                Some(ref p) => Some(p@),
                None => None,
            },
            previous_connection_id: self.previous_connection_id@,
        }
    }
}

pub open spec fn raw_height_valid(raw: Option<RawHeight>) -> bool {
    raw matches Some(h) && h.revision_height > 0
}

pub open spec fn height_from_raw(raw: Option<RawHeight>) -> Height
    recommends
        raw_height_valid(raw),
{
    Height {
        revision_number: raw->Some_0.revision_number,
        revision_height: raw->Some_0.revision_height,
    }
}

/// The checks an `OpenTry` passes before its proofs are looked at: a
/// nonempty valid version list, a valid client identifier, a present client
/// state and a valid counterparty.
pub open spec fn conn_open_try_checks_before_proofs(rv: RawMsgConnectionOpenTryView) -> bool {
    &&& rv.counterparty_versions.len() > 0
    &&& (forall|i: int|
        0 <= i < rv.counterparty_versions.len() ==> version_raw_valid(
            #[trigger] rv.counterparty_versions[i],
        ))
    &&& valid_identifier(rv.client_id, 9, 64)
    &&& rv.client_state is Some
    &&& rv.counterparty matches Some(c) && counterparty_raw_valid(c)
}

/// A wire `OpenTry` is accepted when its version list is nonempty with
/// nonempty identifiers, its client identifier is valid, the client state
/// and the counterparty are present and valid, the three proofs are
/// nonempty, and both heights are well formed.
pub open spec fn conn_open_try_raw_valid(rv: RawMsgConnectionOpenTryView) -> bool {
    &&& rv.counterparty_versions.len() > 0
    &&& (forall|i: int|
        0 <= i < rv.counterparty_versions.len() ==> version_raw_valid(
            #[trigger] rv.counterparty_versions[i],
        ))
    &&& valid_identifier(rv.client_id, 9, 64)
    &&& rv.client_state is Some
    &&& rv.counterparty matches Some(c) && counterparty_raw_valid(c)
    &&& rv.proof_init.len() > 0
    &&& rv.proof_client.len() > 0
    &&& rv.proof_consensus.len() > 0
    &&& raw_height_valid(rv.proof_height)
    &&& raw_height_valid(rv.consensus_height)
}

pub open spec fn conn_open_try_from_raw(rv: RawMsgConnectionOpenTryView)
    -> MsgConnectionOpenTryView
    recommends
        conn_open_try_raw_valid(rv),
{
    MsgConnectionOpenTryView {
        client_id_on_b: rv.client_id,
        client_state_of_b_on_a: rv.client_state->Some_0,
        counterparty: counterparty_from_raw(rv.counterparty->Some_0),
        versions_on_a: rv.counterparty_versions.map_values(|v| version_from_raw(v)),
        proof_conn_end_on_a: rv.proof_init,
        proof_client_state_of_b_on_a: rv.proof_client,
        proof_consensus_state_of_b_on_a: rv.proof_consensus,
        proofs_height_on_a: height_from_raw(rv.proof_height),
        consensus_height_of_b_on_a: height_from_raw(rv.consensus_height),
        delay_period_nanos: rv.delay_period,
        signer: rv.signer,
        proof_consensus_state_of_b: if rv.host_consensus_state_proof.len() == 0 {
            None
        } else {
            Some(rv.host_consensus_state_proof)
        },
        previous_connection_id: rv.previous_connection_id,
    }
}

pub open spec fn conn_open_try_to_raw(mv: MsgConnectionOpenTryView)
    -> RawMsgConnectionOpenTryView {
    RawMsgConnectionOpenTryView {
        client_id: mv.client_id_on_b,
        previous_connection_id: mv.previous_connection_id,
        client_state: Some(mv.client_state_of_b_on_a),
        counterparty: Some(counterparty_to_raw(mv.counterparty)),
        delay_period: mv.delay_period_nanos,
        counterparty_versions: mv.versions_on_a.map_values(|v| version_to_raw(v)),
        proof_height: Some(
            RawHeight {
                revision_number: mv.proofs_height_on_a.revision_number,
                revision_height: mv.proofs_height_on_a.revision_height,
            },
        ),
        proof_init: mv.proof_conn_end_on_a,
        proof_consensus: mv.proof_consensus_state_of_b_on_a,
        consensus_height: Some(
            RawHeight {
                revision_number: mv.consensus_height_of_b_on_a.revision_number,
                revision_height: mv.consensus_height_of_b_on_a.revision_height,
            },
        ),
        proof_client: mv.proof_client_state_of_b_on_a,
        signer: mv.signer,
        host_consensus_state_proof: match mv.proof_consensus_state_of_b {
            Some(p) => p,
            None => Seq::empty(),
        },
    }
}

/// Clones a string list element by element.
fn clone_strings(vs: &Vec<String>) -> (r: Vec<String>)
    ensures
        r.deep_view() == vs.deep_view(),
{
    let mut r: Vec<String> = Vec::new();
    let mut i: usize = 0;
    while i < vs.len()
        invariant
            i <= vs.len(),
            r@.len() == i,
            forall|j: int| 0 <= j < i ==> r@[j]@ == #[trigger] vs@[j]@,
        decreases vs.len() - i,
    {
        r.push(vs[i].clone());
        i += 1;
    }
    proof {
        assert(r.deep_view() =~= vs.deep_view());
    }
    r
}

fn clone_raw_version(v: &RawVersion) -> (r: RawVersion)
    ensures
        r@ == v@,
{
    let r = RawVersion { identifier: v.identifier.clone(), features: clone_strings(&v.features) };
    proof {
        assert(r@ =~~= v@);
    }
    r
}

/// Validates each wire version in order; the list must be nonempty.
fn versions_try_from_raw(raws: &Vec<RawVersion>) -> (r: Result<Vec<Version>, ConnectionError>)
    ensures
        r is Ok <==> (raws@.len() > 0 && forall|i: int|
            0 <= i < raws@.len() ==> version_raw_valid(#[trigger] raws.deep_view()[i])),
        r matches Ok(vs) ==> vs.deep_view() == raws.deep_view().map_values(
            |v: crate::raw::RawVersionView| version_from_raw(v),
        ),
        r is Err ==> r == Err::<Vec<Version>, ConnectionError>(ConnectionError::EmptyVersions),
{
    let ghost rvs = raws.deep_view();
    let mut out: Vec<Version> = Vec::new();
    let mut i: usize = 0;
    let n = raws.len();
    if n == 0 {
        return Err(ConnectionError::EmptyVersions);
    }
    while i < n
        invariant
            i <= n,
            n == rvs.len(),
            rvs == raws.deep_view(),
            out@.len() == i,
            forall|j: int| 0 <= j < i ==> version_raw_valid(#[trigger] rvs[j]),
            forall|j: int| 0 <= j < i ==> #[trigger] out@[j]@ == version_from_raw(rvs[j]),
        decreases n - i,
    {
        let raw = clone_raw_version(&raws[i]);
        proof {
            assert(raw@ == rvs[i as int]);
        }
        match Version::try_from_raw(raw) {
            Ok(v) => {
                out.push(v);
            },
            Err(e) => {
                proof {
                    assert(!version_raw_valid(rvs[i as int]));
                }
                return Err(ConnectionError::EmptyVersions);
            },
        }
        i += 1;
    }
    proof {
        assert(out.deep_view() =~= rvs.map_values(|v: crate::raw::RawVersionView| version_from_raw(v)));
    }
    Ok(out)
}

impl MsgConnectionOpenTry {
    /// The wire envelope's type URL for this message.
    pub fn type_url(&self) -> (r: String)
        ensures
            r@ == "/ibc.core.connection.v1.MsgConnectionOpenTry"@,
    {
        String::from_str("/ibc.core.connection.v1.MsgConnectionOpenTry")
    }

    /// Validates the wire form of the `OpenTry` datagram.
    pub fn try_from_raw(raw: RawMsgConnectionOpenTry) -> (r: Result<
        MsgConnectionOpenTry,
        ConnectionError,
    >)
        ensures
            r is Ok <==> conn_open_try_raw_valid(raw@),
            r matches Ok(m) ==> m@ == conn_open_try_from_raw(raw@),
            raw.counterparty_versions.deep_view().len() == 0 ==> r == Err::<
                MsgConnectionOpenTry,
                ConnectionError,
            >(ConnectionError::EmptyVersions),
            (conn_open_try_checks_before_proofs(raw@) && (raw.proof_init@.len() == 0
                || raw.proof_client@.len() == 0 || raw.proof_consensus@.len() == 0)) ==> r
                == Err::<MsgConnectionOpenTry, ConnectionError>(ConnectionError::InvalidProof),
            (conn_open_try_checks_before_proofs(raw@) && raw.proof_init@.len() > 0
                && raw.proof_client@.len() > 0 && raw.proof_consensus@.len() > 0
                && !raw_height_valid(raw.proof_height)) ==> r == Err::<
                MsgConnectionOpenTry,
                ConnectionError,
            >(ConnectionError::MissingProofHeight),
            (conn_open_try_checks_before_proofs(raw@) && raw.proof_init@.len() > 0
                && raw.proof_client@.len() > 0 && raw.proof_consensus@.len() > 0
                && raw_height_valid(raw.proof_height) && !raw_height_valid(raw.consensus_height))
                ==> r == Err::<MsgConnectionOpenTry, ConnectionError>(
                ConnectionError::MissingConsensusHeight,
            ),
    {
        let ghost rv = raw@;
        let versions_on_a = match versions_try_from_raw(&raw.counterparty_versions) {
            Ok(vs) => vs,
            Err(e) => {
                return Err(e);
            },
        };
        let client_id_on_b = match ClientId::from_str(raw.client_id.as_str()) {
            Ok(id) => id,
            Err(e) => {
                return Err(ConnectionError::InvalidIdentifier(e));
            },
        };
        let client_state_of_b_on_a = match raw.client_state {
            Some(a) => a,
            None => {
                return Err(ConnectionError::MissingClientState);
            },
        };
        let counterparty = match raw.counterparty {
            Some(c) => match Counterparty::try_from_raw(c) {
                Ok(c) => c,
                Err(e) => {
                    return Err(e);
                },
            },
            None => {
                return Err(ConnectionError::MissingCounterparty);
            },
        };
        let proof_conn_end_on_a = match CommitmentProofBytes::try_from_vec(raw.proof_init) {
            Some(p) => p,
            None => {
                return Err(ConnectionError::InvalidProof);
            },
        };
        let proof_client_state_of_b_on_a = match CommitmentProofBytes::try_from_vec(
            raw.proof_client,
        ) {
            Some(p) => p,
            None => {
                return Err(ConnectionError::InvalidProof);
            },
        };
        let proof_consensus_state_of_b_on_a = match CommitmentProofBytes::try_from_vec(
            raw.proof_consensus,
        ) {
            Some(p) => p,
            None => {
                return Err(ConnectionError::InvalidProof);
            },
        };
        let proofs_height_on_a = match raw.proof_height {
            Some(h) => {
                if h.revision_height == 0 {
                    return Err(ConnectionError::MissingProofHeight);
                } else {
                    Height { revision_number: h.revision_number, revision_height: h.revision_height }
                }
            },
            None => {
                return Err(ConnectionError::MissingProofHeight);
            },
        };
        let consensus_height_of_b_on_a = match raw.consensus_height {
            Some(h) => {
                if h.revision_height == 0 {
                    return Err(ConnectionError::MissingConsensusHeight);
                } else {
                    Height { revision_number: h.revision_number, revision_height: h.revision_height }
                }
            },
            None => {
                return Err(ConnectionError::MissingConsensusHeight);
            },
        };
        let proof_consensus_state_of_b: Option<CommitmentProofBytes> = if raw
            .host_consensus_state_proof
            .len() == 0 {
            None
        } else {
            match CommitmentProofBytes::try_from_vec(raw.host_consensus_state_proof) {
                Some(p) => Some(p),
                None => None,
            }
        };
        let m = MsgConnectionOpenTry {
            client_id_on_b,
            client_state_of_b_on_a,
            counterparty,
            versions_on_a,
            proof_conn_end_on_a,
            proof_client_state_of_b_on_a,
            proof_consensus_state_of_b_on_a,
            proofs_height_on_a,
            consensus_height_of_b_on_a,
            delay_period_nanos: raw.delay_period,
            signer: Signer::from_string(raw.signer),
            proof_consensus_state_of_b,
            previous_connection_id: raw.previous_connection_id,
        };
        proof {
            assert(m@.versions_on_a =~= conn_open_try_from_raw(rv).versions_on_a);
        }
        Ok(m)
    }

    /// Renders the datagram back to its wire form.
    pub fn into_raw(self) -> (r: RawMsgConnectionOpenTry)
        ensures
            r@ == conn_open_try_to_raw(self@),
    {
        let ghost mv = self@;
        let mut counterparty_versions: Vec<RawVersion> = Vec::new();
        let n = self.versions_on_a.len();
        let ghost vs = mv.versions_on_a;
        let mut i: usize = 0;
        while i < n
            invariant
                i <= n,
                n == vs.len(),
                vs == self.versions_on_a.deep_view(),
                counterparty_versions@.len() == i,
                forall|j: int|
                    0 <= j < i ==> #[trigger] counterparty_versions@[j]@ == version_to_raw(vs[j]),
            decreases n - i,
        {
            let v = self.versions_on_a[i].clone();
            proof {
                assert(v@ == vs[i as int]);
            }
            counterparty_versions.push(v.into_raw());
            i += 1;
        }
        let host_consensus_state_proof: Vec<u8> = match self.proof_consensus_state_of_b {
            Some(p) => p.into_vec(),
            None => Vec::new(),
        };
        proof {
            assert(host_consensus_state_proof@ =~= conn_open_try_to_raw(
                mv,
            ).host_consensus_state_proof);
        }
        let r = RawMsgConnectionOpenTry {
            client_id: self.client_id_on_b.id,
            previous_connection_id: self.previous_connection_id,
            client_state: Some(self.client_state_of_b_on_a),
            counterparty: Some(self.counterparty.into_raw()),
            delay_period: self.delay_period_nanos,
            counterparty_versions,
            proof_height: Some(
                RawHeight {
                    revision_number: self.proofs_height_on_a.revision_number,
                    revision_height: self.proofs_height_on_a.revision_height,
                },
            ),
            proof_init: self.proof_conn_end_on_a.into_vec(),
            proof_consensus: self.proof_consensus_state_of_b_on_a.into_vec(),
            consensus_height: Some(
                RawHeight {
                    revision_number: self.consensus_height_of_b_on_a.revision_number,
                    revision_height: self.consensus_height_of_b_on_a.revision_height,
                },
            ),
            proof_client: self.proof_client_state_of_b_on_a.into_vec(),
            signer: self.signer.account,
            host_consensus_state_proof,
        };
        proof {
            assert(r@.counterparty_versions =~= conn_open_try_to_raw(mv).counterparty_versions);
        }
        r
    }
}

/// Round trip for `MsgConnectionOpenTry`: rendering a datagram built from a
/// valid wire record gives back the same wire record, hence the same
/// datagram.
pub proof fn lemma_conn_open_try_round_trip(rv: RawMsgConnectionOpenTryView)
    requires
        conn_open_try_raw_valid(rv),
    ensures
        conn_open_try_to_raw(conn_open_try_from_raw(rv)) == rv,
        conn_open_try_from_raw(conn_open_try_to_raw(conn_open_try_from_raw(rv)))
            == conn_open_try_from_raw(rv),
{
    let mv = conn_open_try_from_raw(rv);
    let rv2 = conn_open_try_to_raw(mv);
    assert forall|i: int|
        0 <= i < rv.counterparty_versions.len() implies rv2.counterparty_versions[i]
        =~~= rv.counterparty_versions[i] by {
        assert(mv.versions_on_a[i] == version_from_raw(rv.counterparty_versions[i]));
    }
    assert(rv2.counterparty_versions =~~= rv.counterparty_versions);
    assert(rv2.counterparty =~~= rv.counterparty);
    assert(rv2 =~~= rv);
    assert(conn_open_try_from_raw(rv2) =~~= mv);
}

} // verus!
