//! The Tendermint light client's consensus state: a pruned header holding
//! what the packet handlers need to verify proofs rooted at one height.

use vstd::prelude::*;

use crate::commitment::CommitmentRoot;
use crate::errors::ClientError;
use crate::height::Height;
use crate::raw::{
    RawDuration, RawFraction, RawHeight, RawTmClientState, RawTmClientStateView,
    RawTmConsensusState, RawTmConsensusStateView, RawTmTimestamp,
};
use crate::timestamp::Timestamp;

verus! {

pub const NANOS_PER_SECOND: u64 = 1000000000;

/// A wall-clock time as carried in a Tendermint header: whole seconds since
/// the Unix epoch and a nanosecond remainder.
#[derive(Clone, Copy, Debug, PartialEq, Eq, Structural, Hash)]
pub struct TmTime {
    pub seconds: i64,
    pub nanos: i32,
}

impl TmTime {
    /// The library counts time in `u64` nanoseconds since the Unix epoch,
    /// which bounds the times it can represent.
    pub open spec fn well_formed(self) -> bool {
        &&& 0 <= self.seconds
        &&& 0 <= self.nanos < NANOS_PER_SECOND
        &&& self.seconds * NANOS_PER_SECOND + self.nanos <= u64::MAX
    }

    /// The nanoseconds since the Unix epoch.
    pub fn to_timestamp(&self) -> (r: Timestamp)
        requires
            self.well_formed(),
        ensures
            r.nanos == self.seconds * NANOS_PER_SECOND + self.nanos,
    {
        Timestamp::from_nanoseconds((self.seconds as u64) * NANOS_PER_SECOND + (self.nanos as u64))
    }
}

/// The Tendermint consensus state: the header time, the application-state
/// Merkle root, and the hash of the next validator set.
#[derive(Debug, PartialEq, Eq)]
pub struct ConsensusState {
    pub timestamp: TmTime,
    pub root: CommitmentRoot,
    pub next_validators_hash: Vec<u8>,
}

#[verifier::ext_equal]
pub struct ConsensusStateView {
    pub timestamp: TmTime,
    pub root: Seq<u8>,
    pub next_validators_hash: Seq<u8>,
}

impl View for ConsensusState {
    type V = ConsensusStateView;

    open spec fn view(&self) -> ConsensusStateView {
        ConsensusStateView {
            timestamp: self.timestamp,
            root: self.root@,
            next_validators_hash: self.next_validators_hash@,
        }
    }
}

impl Clone for ConsensusState {
    fn clone(&self) -> (r: Self)
        ensures
            r@ == self@,
    {
        ConsensusState {
            timestamp: self.timestamp,
            root: self.root.clone(),
            next_validators_hash: self.next_validators_hash.clone(),
        }
    }
}

pub open spec fn tm_time_raw_valid(t: RawTmTimestamp) -> bool {
    &&& 0 <= t.seconds
    &&& 0 <= t.nanos < NANOS_PER_SECOND
    &&& t.seconds * NANOS_PER_SECOND + t.nanos <= u64::MAX
}

/// A wire consensus state is accepted when the root and timestamp are
/// present, the timestamp is representable, and the next-validators hash is
/// a SHA-256 digest, 32 bytes.
pub open spec fn tm_consensus_raw_valid(rv: RawTmConsensusStateView) -> bool {
    &&& rv.root is Some
    &&& rv.timestamp matches Some(t) && tm_time_raw_valid(t)
    &&& rv.next_validators_hash.len() == 32
}

pub open spec fn tm_consensus_from_raw(rv: RawTmConsensusStateView) -> ConsensusStateView
    recommends
        tm_consensus_raw_valid(rv),
{
    ConsensusStateView {
        timestamp: TmTime {
            seconds: rv.timestamp->Some_0.seconds,
            nanos: rv.timestamp->Some_0.nanos,
        },
        root: rv.root->Some_0,
        next_validators_hash: rv.next_validators_hash,
    }
}

pub open spec fn tm_consensus_to_raw(cv: ConsensusStateView) -> RawTmConsensusStateView {
    RawTmConsensusStateView {
        timestamp: Some(
            RawTmTimestamp { seconds: cv.timestamp.seconds, nanos: cv.timestamp.nanos },
        ),
        root: Some(cv.root),
        next_validators_hash: cv.next_validators_hash,
    }
}

impl ConsensusState {
    /// The type URL under which this consensus state travels in an `Any`
    /// envelope.
    pub fn type_url() -> (r: String)
        ensures
            r@ == "/ibc.lightclients.tendermint.v1.ConsensusState"@,
    {
        String::from_str("/ibc.lightclients.tendermint.v1.ConsensusState")
    }

    pub open spec fn well_formed(&self) -> bool {
        self.timestamp.well_formed() && self.next_validators_hash@.len() == 32
    }

    pub fn new(root: CommitmentRoot, timestamp: TmTime, next_validators_hash: Vec<u8>) -> (r:
        ConsensusState)
        requires
            timestamp.well_formed(),
            next_validators_hash@.len() == 32,
        ensures
            r@.root == root@,
            r@.timestamp == timestamp,
            r@.next_validators_hash == next_validators_hash@,
            r.well_formed(),
    {
        ConsensusState { timestamp, root, next_validators_hash }
    }

    /// Validates a wire consensus state.
    pub fn try_from_raw(raw: RawTmConsensusState) -> (r: Result<ConsensusState, ClientError>)
        ensures
            r is Ok <==> tm_consensus_raw_valid(raw@),
            r matches Ok(c) ==> c@ == tm_consensus_from_raw(raw@) && c.well_formed(),
            r is Err ==> r == Err::<ConsensusState, ClientError>(
                ClientError::InvalidRawConsensusState,
            ),
    {
        let root = match raw.root {
            Some(bytes) => CommitmentRoot::from_vec(bytes),
            None => {
                return Err(ClientError::InvalidRawConsensusState);
            },
        };
        let timestamp = match raw.timestamp {
            Some(t) => {
                if t.seconds < 0 || t.nanos < 0 || t.nanos >= 1000000000 {
                    return Err(ClientError::InvalidRawConsensusState);
                }
                if (t.seconds as u128) * (NANOS_PER_SECOND as u128) + (t.nanos as u128) > (
                u64::MAX as u128) {
                    return Err(ClientError::InvalidRawConsensusState);
                }
                TmTime { seconds: t.seconds, nanos: t.nanos }
            },
            None => {
                return Err(ClientError::InvalidRawConsensusState);
            },
        };
        if raw.next_validators_hash.len() != 32 {
            return Err(ClientError::InvalidRawConsensusState);
        }
        Ok(ConsensusState { timestamp, root, next_validators_hash: raw.next_validators_hash })
    }

    /// Renders the consensus state back to its wire form.
    pub fn into_raw(self) -> (r: RawTmConsensusState)
        ensures
            r@ == tm_consensus_to_raw(self@),
    {
        RawTmConsensusState {
            timestamp: Some(
                RawTmTimestamp { seconds: self.timestamp.seconds, nanos: self.timestamp.nanos },
            ),
            root: Some(self.root.into_vec()),
            next_validators_hash: self.next_validators_hash,
        }
    }

    pub fn root(&self) -> (r: &CommitmentRoot)
        ensures
            r@ == self@.root,
    {
        &self.root
    }

    /// The consensus time as nanoseconds since the Unix epoch.
    pub fn timestamp(&self) -> (r: Timestamp)
        requires
            self.well_formed(),
        ensures
            r.nanos == self.timestamp.seconds * NANOS_PER_SECOND + self.timestamp.nanos,
    {
        self.timestamp.to_timestamp()
    }
}

/// Round trip for the Tendermint consensus state: decoding a valid wire
/// record and encoding it back is the identity.
pub proof fn lemma_tm_consensus_round_trip(rv: RawTmConsensusStateView)
    requires
        tm_consensus_raw_valid(rv),
    ensures
        tm_consensus_to_raw(tm_consensus_from_raw(rv)) == rv,
        tm_consensus_from_raw(tm_consensus_to_raw(tm_consensus_from_raw(rv)))
            == tm_consensus_from_raw(rv),
{
}

/// A wire duration is representable when it is non-negative and fits the
/// library's `u64` nanosecond arithmetic.
pub open spec fn duration_raw_valid(d: RawDuration) -> bool {
    &&& 0 <= d.seconds
    &&& 0 <= d.nanos < NANOS_PER_SECOND
    &&& d.seconds * NANOS_PER_SECOND + d.nanos <= u64::MAX
}

pub open spec fn duration_nanos_of(d: RawDuration) -> u64
    recommends
        duration_raw_valid(d),
{
    (d.seconds * NANOS_PER_SECOND + d.nanos) as u64
}

/// Renders a nanosecond count back to the wire duration form.
pub open spec fn duration_to_raw(nanos: u64) -> RawDuration {
    RawDuration {
        seconds: (nanos / NANOS_PER_SECOND) as i64,
        nanos: (nanos % NANOS_PER_SECOND) as i32,
    }
}

/// The Tendermint client state: what the protocol reads of a light client
/// tracking a counterparty chain. The verifier's proof specifications are
/// the light-client implementation's own and stay at the boundary.
#[derive(Debug, PartialEq, Eq)]
pub struct TmClientState {
    pub chain_id: String,
    pub trust_level_numerator: u64,
    pub trust_level_denominator: u64,
    pub trusting_period_nanos: u64,
    pub unbonding_period_nanos: u64,
    pub max_clock_drift_nanos: u64,
    pub frozen_height: Option<Height>,
    pub latest_height: Height,
    pub upgrade_path: Vec<String>,
    pub allow_update_after_expiry: bool,
    pub allow_update_after_misbehaviour: bool,
}

#[verifier::ext_equal]
pub struct TmClientStateView {
    pub chain_id: Seq<char>,
    pub trust_level_numerator: u64,
    pub trust_level_denominator: u64,
    pub trusting_period_nanos: u64,
    pub unbonding_period_nanos: u64,
    pub max_clock_drift_nanos: u64,
    pub frozen_height: Option<Height>,
    pub latest_height: Height,
    pub upgrade_path: Seq<Seq<char>>,
    pub allow_update_after_expiry: bool,
    pub allow_update_after_misbehaviour: bool,
}

impl View for TmClientState {
    type V = TmClientStateView;

    open spec fn view(&self) -> TmClientStateView {
        TmClientStateView {
            chain_id: self.chain_id@,
            trust_level_numerator: self.trust_level_numerator,
            trust_level_denominator: self.trust_level_denominator,
            trusting_period_nanos: self.trusting_period_nanos,
            unbonding_period_nanos: self.unbonding_period_nanos,
            max_clock_drift_nanos: self.max_clock_drift_nanos,
            frozen_height: self.frozen_height,
            latest_height: self.latest_height,
            upgrade_path: self.upgrade_path.deep_view(),
            allow_update_after_expiry: self.allow_update_after_expiry,
            allow_update_after_misbehaviour: self.allow_update_after_misbehaviour,
        }
    }
}

/// A wire client state is accepted when: the chain identifier is nonempty
/// and at most 50 characters; the trust threshold is present, proper and at
/// least one third; the three durations are present and representable, the
/// trusting and clock-drift periods positive, and the trusting period below
/// the unbonding period; and the latest height is present and well formed.
/// A zero or missing wire frozen height means "not frozen".
pub open spec fn tm_client_raw_valid(rv: RawTmClientStateView) -> bool {
    &&& 0 < rv.chain_id.len() <= 50
    &&& rv.trust_level matches Some(f) && f.denominator > 0 && f.numerator <= f.denominator && 3
        * f.numerator >= f.denominator
    &&& rv.trusting_period matches Some(d) && duration_raw_valid(d) && duration_nanos_of(d) > 0
    &&& rv.unbonding_period matches Some(d) && duration_raw_valid(d)
    &&& rv.max_clock_drift matches Some(d) && duration_raw_valid(d) && duration_nanos_of(d) > 0
    &&& duration_nanos_of(rv.trusting_period->Some_0) < duration_nanos_of(
        rv.unbonding_period->Some_0,
    )
    &&& (rv.frozen_height matches Some(h) ==> h.revision_height > 0 || (h.revision_number == 0
        && h.revision_height == 0))
    &&& rv.latest_height matches Some(h) && h.revision_height > 0
}

pub open spec fn frozen_height_from_raw(raw: Option<RawHeight>) -> Option<Height> {
    match raw {
        None => None,
        Some(h) => if h.revision_number == 0 && h.revision_height == 0 {
            None
        } else {
            Some(Height { revision_number: h.revision_number, revision_height: h.revision_height })
        },
    }
}

pub open spec fn tm_client_from_raw(rv: RawTmClientStateView) -> TmClientStateView
    recommends
        tm_client_raw_valid(rv),
{
    TmClientStateView {
        chain_id: rv.chain_id,
        trust_level_numerator: rv.trust_level->Some_0.numerator,
        trust_level_denominator: rv.trust_level->Some_0.denominator,
        trusting_period_nanos: duration_nanos_of(rv.trusting_period->Some_0),
        unbonding_period_nanos: duration_nanos_of(rv.unbonding_period->Some_0),
        max_clock_drift_nanos: duration_nanos_of(rv.max_clock_drift->Some_0),
        frozen_height: frozen_height_from_raw(rv.frozen_height),
        latest_height: Height {
            revision_number: rv.latest_height->Some_0.revision_number,
            revision_height: rv.latest_height->Some_0.revision_height,
        },
        upgrade_path: rv.upgrade_path,
        allow_update_after_expiry: rv.allow_update_after_expiry,
        allow_update_after_misbehaviour: rv.allow_update_after_misbehaviour,
    }
}

pub open spec fn tm_client_to_raw(cv: TmClientStateView) -> RawTmClientStateView {
    RawTmClientStateView {
        chain_id: cv.chain_id,
        trust_level: Some(
            RawFraction {
                numerator: cv.trust_level_numerator,
                denominator: cv.trust_level_denominator,
            },
        ),
        trusting_period: Some(duration_to_raw(cv.trusting_period_nanos)),
        unbonding_period: Some(duration_to_raw(cv.unbonding_period_nanos)),
        max_clock_drift: Some(duration_to_raw(cv.max_clock_drift_nanos)),
        frozen_height: match cv.frozen_height {
            None => Some(RawHeight { revision_number: 0, revision_height: 0 }),
            Some(h) => Some(
                RawHeight {
                    revision_number: h.revision_number,
                    revision_height: h.revision_height,
                },
            ),
        },
        latest_height: Some(
            RawHeight {
                revision_number: cv.latest_height.revision_number,
                revision_height: cv.latest_height.revision_height,
            },
        ),
        upgrade_path: cv.upgrade_path,
        allow_update_after_expiry: cv.allow_update_after_expiry,
        allow_update_after_misbehaviour: cv.allow_update_after_misbehaviour,
    }
}

fn duration_nanos_checked(d: RawDuration) -> (r: Option<u64>)
    ensures
        r is Some <==> duration_raw_valid(d),
        r matches Some(n) ==> n == duration_nanos_of(d),
{
    if d.seconds < 0 || d.nanos < 0 || d.nanos >= 1000000000 {
        return None;
    }
    if (d.seconds as u128) * (NANOS_PER_SECOND as u128) + (d.nanos as u128) > (u64::MAX as u128) {
        return None;
    }
    Some((d.seconds as u64) * NANOS_PER_SECOND + (d.nanos as u64))
}

impl TmClientState {
    /// The type URL under which this client state travels in an `Any`
    /// envelope.
    pub fn type_url() -> (r: String)
        ensures
            r@ == "/ibc.lightclients.tendermint.v1.ClientState"@,
    {
        String::from_str("/ibc.lightclients.tendermint.v1.ClientState")
    }

    /// Validates a wire client state.
    pub fn try_from_raw(raw: RawTmClientState) -> (r: Result<TmClientState, ClientError>)
        ensures
            r is Ok <==> tm_client_raw_valid(raw@),
            r matches Ok(c) ==> c@ == tm_client_from_raw(raw@),
            r is Err ==> r == Err::<TmClientState, ClientError>(ClientError::InvalidRawClientState),
    {
        let n = raw.chain_id.as_str().unicode_len();
        if n == 0 || n > 50 {
            return Err(ClientError::InvalidRawClientState);
        }
        let (trust_level_numerator, trust_level_denominator) = match raw.trust_level {
            Some(f) => {
                if f.denominator == 0 || f.numerator > f.denominator {
                    return Err(ClientError::InvalidRawClientState);
                }
                if (3u128 * (f.numerator as u128)) < (f.denominator as u128) {
                    return Err(ClientError::InvalidRawClientState);
                }
                (f.numerator, f.denominator)
            },
            None => {
                return Err(ClientError::InvalidRawClientState);
            },
        };
        let trusting_period_nanos = match raw.trusting_period {
            Some(d) => match duration_nanos_checked(d) {
                Some(n) => {
                    if n == 0 {
                        return Err(ClientError::InvalidRawClientState);
                    }
                    n
                },
                None => {
                    return Err(ClientError::InvalidRawClientState);
                },
            },
            None => {
                return Err(ClientError::InvalidRawClientState);
            },
        };
        let unbonding_period_nanos = match raw.unbonding_period {
            Some(d) => match duration_nanos_checked(d) {
                Some(n) => n,
                None => {
                    return Err(ClientError::InvalidRawClientState);
                },
            },
            None => {
                return Err(ClientError::InvalidRawClientState);
            },
        };
        let max_clock_drift_nanos = match raw.max_clock_drift {
            Some(d) => match duration_nanos_checked(d) {
                Some(n) => {
                    if n == 0 {
                        return Err(ClientError::InvalidRawClientState);
                    }
                    n
                },
                None => {
                    return Err(ClientError::InvalidRawClientState);
                },
            },
            None => {
                return Err(ClientError::InvalidRawClientState);
            },
        };
        if trusting_period_nanos >= unbonding_period_nanos {
            return Err(ClientError::InvalidRawClientState);
        }
        let frozen_height: Option<Height> = match raw.frozen_height {
            None => None,
            Some(h) => {
                if h.revision_number == 0 && h.revision_height == 0 {
                    None
                } else if h.revision_height == 0 {
                    return Err(ClientError::InvalidRawClientState);
                } else {
                    Some(
                        Height {
                            revision_number: h.revision_number,
                            revision_height: h.revision_height,
                        },
                    )
                }
            },
        };
        let latest_height = match raw.latest_height {
            Some(h) => {
                if h.revision_height == 0 {
                    return Err(ClientError::InvalidRawClientState);
                }
                Height { revision_number: h.revision_number, revision_height: h.revision_height }
            },
            None => {
                return Err(ClientError::InvalidRawClientState);
            },
        };
        Ok(
            TmClientState {
                chain_id: raw.chain_id,
                trust_level_numerator,
                trust_level_denominator,
                trusting_period_nanos,
                unbonding_period_nanos,
                max_clock_drift_nanos,
                frozen_height,
                latest_height,
                upgrade_path: raw.upgrade_path,
                allow_update_after_expiry: raw.allow_update_after_expiry,
                allow_update_after_misbehaviour: raw.allow_update_after_misbehaviour,
            },
        )
    }

    /// Renders the client state back to its wire form; "not frozen" becomes
    /// the zero wire height.
    pub fn into_raw(self) -> (r: RawTmClientState)
        ensures
            r@ == tm_client_to_raw(self@),
    {
        RawTmClientState {
            chain_id: self.chain_id,
            trust_level: Some(
                RawFraction {
                    numerator: self.trust_level_numerator,
                    denominator: self.trust_level_denominator,
                },
            ),
            trusting_period: Some(
                RawDuration {
                    seconds: (self.trusting_period_nanos / NANOS_PER_SECOND) as i64,
                    nanos: (self.trusting_period_nanos % NANOS_PER_SECOND) as i32,
                },
            ),
            unbonding_period: Some(
                RawDuration {
                    seconds: (self.unbonding_period_nanos / NANOS_PER_SECOND) as i64,
                    nanos: (self.unbonding_period_nanos % NANOS_PER_SECOND) as i32,
                },
            ),
            max_clock_drift: Some(
                RawDuration {
                    seconds: (self.max_clock_drift_nanos / NANOS_PER_SECOND) as i64,
                    nanos: (self.max_clock_drift_nanos % NANOS_PER_SECOND) as i32,
                },
            ),
            frozen_height: match self.frozen_height {
                None => Some(RawHeight { revision_number: 0, revision_height: 0 }),
                Some(h) => Some(
                    RawHeight {
                        revision_number: h.revision_number,
                        revision_height: h.revision_height,
                    },
                ),
            },
            latest_height: Some(
                RawHeight {
                    revision_number: self.latest_height.revision_number,
                    revision_height: self.latest_height.revision_height,
                },
            ),
            upgrade_path: self.upgrade_path,
            allow_update_after_expiry: self.allow_update_after_expiry,
            allow_update_after_misbehaviour: self.allow_update_after_misbehaviour,
        }
    }
}

/// Round trip for the Tendermint client state: decoding a valid wire record
/// and encoding it back denotes the same client state.
pub proof fn lemma_tm_client_round_trip(rv: RawTmClientStateView)
    requires
        tm_client_raw_valid(rv),
    ensures
        tm_client_raw_valid(tm_client_to_raw(tm_client_from_raw(rv))),
        tm_client_from_raw(tm_client_to_raw(tm_client_from_raw(rv))) == tm_client_from_raw(rv),
{
    let cv = tm_client_from_raw(rv);
    let rv2 = tm_client_to_raw(cv);
    lemma_duration_round_trip(rv.trusting_period->Some_0);
    lemma_duration_round_trip(rv.unbonding_period->Some_0);
    lemma_duration_round_trip(rv.max_clock_drift->Some_0);
    assert(tm_client_from_raw(rv2) =~~= cv);
}

/// A representable nanosecond count splits back into a valid wire duration
/// denoting the same count.
proof fn lemma_duration_round_trip(d: RawDuration)
    requires
        duration_raw_valid(d),
    ensures
        duration_raw_valid(duration_to_raw(duration_nanos_of(d))),
        duration_nanos_of(duration_to_raw(duration_nanos_of(d))) == duration_nanos_of(d),
{
    let n = duration_nanos_of(d);
    assert(n / NANOS_PER_SECOND <= n) by (nonlinear_arith)
        requires
            n >= 0,
    ;
    assert((n / NANOS_PER_SECOND) * NANOS_PER_SECOND + n % NANOS_PER_SECOND == n) by (
    nonlinear_arith);
    assert(0 <= n % NANOS_PER_SECOND < NANOS_PER_SECOND) by (nonlinear_arith);
}

} // verus!
