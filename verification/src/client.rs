//! Light-client lifecycle: the status a client can be in, and the on-chain
//! record the host keeps per client.

use vstd::prelude::*;

use crate::commitment::CommitmentRoot;
use crate::errors::ClientError;
use crate::height::Height;
use crate::path::height_key;
use crate::store::Store;
use crate::timestamp::Timestamp;

verus! {

/// The status of an on-chain light client. A client that is not `Active`
/// rejects all proof verifications.
#[derive(Clone, Copy, Debug, PartialEq, Eq, Structural)]
pub enum Status {
    Active,
    Frozen,
    Expired,
}

impl Status {
    pub fn is_active(&self) -> (r: bool)
        ensures
            r == (*self == Status::Active),
    {
        match self {
            Status::Active => true,
            _ => false,
        }
    }
}

/// A stored consensus state of a counterparty chain: what the packet
/// handlers read to check proofs rooted at that height.
#[derive(Debug, PartialEq, Eq)]
pub struct ConsensusStateRecord {
    pub timestamp: Timestamp,
    pub root: CommitmentRoot,
}

impl Clone for ConsensusStateRecord {
    fn clone(&self) -> (r: Self)
        ensures
            r.timestamp == self.timestamp,
            r.root@ == self.root@,
    {
        ConsensusStateRecord { timestamp: self.timestamp, root: self.root.clone() }
    }
}

/// The host's record of one on-chain light client. Proof bytes themselves
/// are checked by the client implementation, a host collaborator; the
/// record keeps what the protocol logic reads: heights, times and roots.
pub struct ClientRecord {
    /// The highest counterparty height this client has verified.
    pub latest_height: Height,
    /// Set when misbehaviour froze the client.
    pub frozen_height: Option<Height>,
    /// How long a consensus state stays trustworthy; zero means forever.
    pub trusting_period_nanos: u64,
    /// The consensus timestamp at `latest_height`.
    pub latest_timestamp: Timestamp,
    /// Consensus states keyed by the `{rev}-{height}` rendering of their
    /// height.
    pub consensus_states: Store<ConsensusStateRecord>,
}

/// What status a client record is in at the host's current time: frozen
/// clients stay frozen, a client whose latest consensus state has outlived
/// the trusting period is expired, all others are active.
pub open spec fn client_status(rec: ClientRecord, host_timestamp: Timestamp) -> Status {
    if rec.frozen_height is Some {
        Status::Frozen
    } else if rec.trusting_period_nanos > 0 && host_timestamp.nanos >= rec.latest_timestamp.nanos
        + rec.trusting_period_nanos {
        Status::Expired
    } else {
        Status::Active
    }
}

impl ClientRecord {
    pub open spec fn well_formed(&self) -> bool {
        self.consensus_states.well_formed()
    }

    /// The status of this client at the given host time.
    pub fn status(&self, host_timestamp: &Timestamp) -> (r: Status)
        ensures
            r == client_status(*self, *host_timestamp),
    {
        if self.frozen_height.is_some() {
            Status::Frozen
        } else if self.trusting_period_nanos > 0 && host_timestamp.nanos
            >= self.latest_timestamp.nanos && host_timestamp.nanos - self.latest_timestamp.nanos
            >= self.trusting_period_nanos {
            Status::Expired
        } else {
            Status::Active
        }
    }

    /// A proof may not be taken above the client's latest verified height.
    pub fn validate_proof_height(&self, proof_height: &Height) -> (r: Result<(), ClientError>)
        ensures
            r is Ok <==> proof_height.spec_le(self.latest_height),
            r is Err ==> r == Err::<(), ClientError>(ClientError::InvalidHeight),
    {
        if proof_height.le(&self.latest_height) {
            Ok(())
        } else {
            Err(ClientError::InvalidHeight)
        }
    }

    /// The consensus state this client stored for the given height.
    pub fn consensus_state_at(&self, height: &Height) -> (r: Option<&ConsensusStateRecord>)
        requires
            self.well_formed(),
        ensures
            r is Some <==> self.consensus_states@.contains_key(height_key(*height)),
            r matches Some(c) ==> *c == self.consensus_states@[height_key(*height)],
    {
        let key = crate::path::height_key_string(height);
        self.consensus_states.get(&key)
    }
}

} // verus!
