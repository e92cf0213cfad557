//! Connection ends: the per-chain record of the connection handshake, and
//! the version negotiation data it carries.

use vstd::prelude::*;

use crate::commitment::CommitmentPrefix;
use crate::errors::ConnectionError;
use crate::identifier::{ClientId, ConnectionId};
use crate::raw::{RawCounterparty, RawCounterpartyView, RawVersion, RawVersionView};

verus! {

/// The state of a connection end. It only ever advances:
/// `Uninitialized -> Init -> TryOpen -> Open`; `Open` is terminal.
#[derive(Clone, Copy, Debug, PartialEq, Eq, Structural, Hash)]
pub enum State {
    Uninitialized,
    Init,
    TryOpen,
    Open,
}

/// A stable code for each state, used in error reports.
pub open spec fn state_code(s: State) -> u8 {
    match s {
        State::Uninitialized => 0,
        State::Init => 1,
        State::TryOpen => 2,
        State::Open => 3,
    }
}

impl State {
    pub fn code(&self) -> (r: u8)
        ensures
            r == state_code(*self),
    {
        match self {
            State::Uninitialized => 0,
            State::Init => 1,
            State::TryOpen => 2,
            State::Open => 3,
        }
    }
}

/// A connection version: a protocol version identifier and the channel
/// orderings it supports.
#[derive(Debug, PartialEq, Eq)]
pub struct Version {
    pub identifier: String,
    pub features: Vec<String>,
}

#[verifier::ext_equal]
pub struct VersionView {
    pub identifier: Seq<char>,
    pub features: Seq<Seq<char>>,
}

impl View for Version {
    type V = VersionView;

    open spec fn view(&self) -> VersionView {
        VersionView { identifier: self.identifier@, features: self.features.deep_view() }
    }
}

impl DeepView for Version {
    type V = VersionView;

    open spec fn deep_view(&self) -> VersionView {
        self@
    }
}

/// Clones a version list element by element.
pub fn clone_versions(vs: &Vec<Version>) -> (r: Vec<Version>)
    ensures
        r.deep_view() == vs.deep_view(),
{
    let mut r: Vec<Version> = Vec::new();
    let mut i: usize = 0;
    while i < vs.len()
        invariant
            i <= vs.len(),
            r@.len() == i,
            forall|j: int| 0 <= j < i ==> r@[j]@ == #[trigger] vs@[j]@,
        decreases vs.len() - i,
    {
        r.push(vs[i].clone());
        i += 1;
    }
    proof {
        assert(r.deep_view() =~= vs.deep_view());
    }
    r
}

impl Clone for Version {
    fn clone(&self) -> (r: Self)
        ensures
            r@ == self@,
    {
        let r = Version { identifier: self.identifier.clone(), features: self.features.clone() };
        proof {
            assert(r.features.deep_view() =~= self.features.deep_view());
        }
        r
    }
}

pub open spec fn version_raw_valid(rv: RawVersionView) -> bool {
    rv.identifier.len() > 0
}

pub open spec fn version_from_raw(rv: RawVersionView) -> VersionView {
    VersionView { identifier: rv.identifier, features: rv.features }
}

pub open spec fn version_to_raw(vv: VersionView) -> RawVersionView {
    RawVersionView { identifier: vv.identifier, features: vv.features }
}

impl Version {
    /// Validates a wire version: the identifier must be nonempty.
    pub fn try_from_raw(raw: RawVersion) -> (r: Result<Version, ConnectionError>)
        ensures
            r is Ok <==> version_raw_valid(raw@),
            r matches Ok(v) ==> v@ == version_from_raw(raw@),
            r is Err ==> r == Err::<Version, ConnectionError>(ConnectionError::EmptyVersions),
    {
        if raw.identifier.as_str().unicode_len() == 0 {
            return Err(ConnectionError::EmptyVersions);
        }
        Ok(Version { identifier: raw.identifier, features: raw.features })
    }

    /// Renders the version back to its wire form.
    pub fn into_raw(self) -> (r: RawVersion)
        ensures
            r@ == version_to_raw(self@),
    {
        RawVersion { identifier: self.identifier, features: self.features }
    }

    /// The single version this implementation supports, with both channel
    /// orderings as features.
    pub fn compatible() -> (r: Version)
        ensures
            r@.identifier == "1"@,
            r@.features.len() == 2,
            r@.features[0] == "ORDER_ORDERED"@,
            r@.features[1] == "ORDER_UNORDERED"@,
    {
        let mut features: Vec<String> = Vec::new();
        features.push(String::from_str("ORDER_ORDERED"));
        features.push(String::from_str("ORDER_UNORDERED"));
        let r = Version { identifier: String::from_str("1"), features };
        proof {
            assert(r.features.deep_view() =~= seq!["ORDER_ORDERED"@, "ORDER_UNORDERED"@]);
        }
        r
    }

    pub fn eq_identifier(&self, other: &Version) -> (r: bool)
        ensures
            r == (self@.identifier == other@.identifier),
    {
        self.identifier == other.identifier
    }
}

/// The counterparty of a connection: its client, its connection identifier
/// once allocated, and its store prefix.
#[derive(Debug, PartialEq, Eq)]
pub struct Counterparty {
    pub client_id: ClientId,
    pub connection_id: Option<ConnectionId>,
    pub prefix: CommitmentPrefix,
}

#[verifier::ext_equal]
pub struct CounterpartyView {
    pub client_id: Seq<char>,
    pub connection_id: Option<Seq<char>>,
    pub prefix: Seq<u8>,
}

impl View for Counterparty {
    type V = CounterpartyView;

    open spec fn view(&self) -> CounterpartyView {
        CounterpartyView {
            client_id: self.client_id@,
            connection_id: match self.connection_id {
                Some(ref id) => Some(id@),
                None => None,
            },
            prefix: self.prefix@,
        }
    }
}

impl Clone for Counterparty {
    fn clone(&self) -> (r: Self)
        ensures
            r@ == self@,
    {
        Counterparty {
            client_id: self.client_id.clone(),
            connection_id: match &self.connection_id {
                Some(id) => Some(id.clone()),
                None => None,
            },
            prefix: self.prefix.clone(),
        }
    }
}

/// An empty wire connection identifier means "not allocated yet".
pub open spec fn counterparty_raw_valid(rv: RawCounterpartyView) -> bool {
    &&& crate::identifier::valid_identifier(rv.client_id, 9, 64)
    &&& (rv.connection_id.len() == 0 || crate::identifier::valid_identifier(
        rv.connection_id,
        10,
        64,
    ))
    &&& rv.prefix is Some
}

pub open spec fn counterparty_from_raw(rv: RawCounterpartyView) -> CounterpartyView
    recommends
        counterparty_raw_valid(rv),
{
    CounterpartyView {
        client_id: rv.client_id,
        connection_id: if rv.connection_id.len() == 0 {
            None
        } else {
            Some(rv.connection_id)
        },
        prefix: rv.prefix->Some_0,
    }
}

pub open spec fn counterparty_to_raw(cv: CounterpartyView) -> RawCounterpartyView {
    RawCounterpartyView {
        client_id: cv.client_id,
        connection_id: match cv.connection_id {
            Some(id) => id,
            None => Seq::empty(),
        },
        prefix: Some(cv.prefix),
    }
}

impl Counterparty {
    /// Validates a wire counterparty: a valid client identifier, an empty or
    /// valid connection identifier, and a present prefix.
    pub fn try_from_raw(raw: RawCounterparty) -> (r: Result<Counterparty, ConnectionError>)
        ensures
            r is Ok <==> counterparty_raw_valid(raw@),
            r matches Ok(c) ==> c@ == counterparty_from_raw(raw@),
    {
        let client_id = match ClientId::from_str(raw.client_id.as_str()) {
            Ok(id) => id,
            Err(e) => {
                return Err(ConnectionError::InvalidIdentifier(e));
            },
        };
        let connection_id: Option<ConnectionId> = if raw.connection_id.as_str().unicode_len()
            == 0 {
            None
        } else {
            match ConnectionId::from_str(raw.connection_id.as_str()) {
                Ok(id) => Some(id),
                Err(e) => {
                    return Err(ConnectionError::InvalidIdentifier(e));
                },
            }
        };
        let prefix = match raw.prefix {
            Some(bytes) => CommitmentPrefix { bytes },
            None => {
                return Err(ConnectionError::MissingCounterparty);
            },
        };
        Ok(Counterparty { client_id, connection_id, prefix })
    }

    /// Renders the counterparty back to its wire form; a missing connection
    /// identifier becomes the empty string.
    pub fn into_raw(self) -> (r: RawCounterparty)
        ensures
            r@ == counterparty_to_raw(self@),
    {
        let connection_id: String = match self.connection_id {
            Some(id) => id.id,
            None => String::new(),
        };
        proof {
            assert(connection_id@ =~= counterparty_to_raw(self@).connection_id);
        }
        RawCounterparty {
            client_id: self.client_id.id,
            connection_id,
            prefix: Some(self.prefix.bytes),
        }
    }

    pub fn new(client_id: ClientId, connection_id: Option<ConnectionId>, prefix: CommitmentPrefix)
        -> (r: Counterparty)
        ensures
            r.client_id == client_id,
            r.connection_id == connection_id,
            r.prefix == prefix,
    {
        Counterparty { client_id, connection_id, prefix }
    }
}

/// One side's record of a connection.
#[derive(Debug, PartialEq, Eq)]
pub struct ConnectionEnd {
    pub state: State,
    pub client_id: ClientId,
    pub counterparty: Counterparty,
    pub versions: Vec<Version>,
    pub delay_period_nanos: u64,
}

impl Clone for ConnectionEnd {
    fn clone(&self) -> (r: Self)
        ensures
            r.state == self.state,
            r.client_id@ == self.client_id@,
            r.counterparty@ == self.counterparty@,
            r.versions.deep_view() == self.versions.deep_view(),
            r.delay_period_nanos == self.delay_period_nanos,
    {
        ConnectionEnd {
            state: self.state,
            client_id: self.client_id.clone(),
            counterparty: self.counterparty.clone(),
            versions: clone_versions(&self.versions),
            delay_period_nanos: self.delay_period_nanos,
        }
    }
}

impl ConnectionEnd {
    pub fn new(
        state: State,
        client_id: ClientId,
        counterparty: Counterparty,
        versions: Vec<Version>,
        delay_period_nanos: u64,
    ) -> (r: ConnectionEnd)
        ensures
            r.state == state,
            r.client_id == client_id,
            r.counterparty == counterparty,
            r.versions == versions,
            r.delay_period_nanos == delay_period_nanos,
    {
        ConnectionEnd { state, client_id, counterparty, versions, delay_period_nanos }
    }

    pub fn state(&self) -> (r: State)
        ensures
            r == self.state,
    {
        self.state
    }

    /// Checks the end is in the expected handshake state.
    pub fn verify_state_matches(&self, expected: &State) -> (r: Result<(), ConnectionError>)
        ensures
            r is Ok <==> self.state == *expected,
            r is Err ==> r == Err::<(), ConnectionError>(
                ConnectionError::InvalidState {
                    expected: state_code(*expected),
                    actual: state_code(self.state),
                },
            ),
    {
        if self.state == *expected {
            Ok(())
        } else {
            Err(
                ConnectionError::InvalidState {
                    expected: expected.code(),
                    actual: self.state.code(),
                },
            )
        }
    }
}

} // verus!
