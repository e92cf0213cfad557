//! Channel ends: the per-chain record of the channel handshake and its
//! ordering discipline.

use vstd::prelude::*;

use crate::errors::ChannelError;
use crate::identifier::{ChannelId, ConnectionId, PortId};

verus! {

/// The state of a channel end. It only ever advances:
/// `Uninitialized -> Init -> TryOpen -> Open -> Closed`.
#[derive(Clone, Copy, Debug, PartialEq, Eq, Structural, Hash)]
pub enum State {
    Uninitialized,
    Init,
    TryOpen,
    Open,
    Closed,
}

/// A stable code for each state, used in error reports.
pub open spec fn state_code(s: State) -> u8 {
    match s {
        State::Uninitialized => 0,
        State::Init => 1,
        State::TryOpen => 2,
        State::Open => 3,
        State::Closed => 4,
    }
}

impl State {
    pub fn code(&self) -> (r: u8)
        ensures
            r == state_code(*self),
    {
        match self {
            State::Uninitialized => 0,
            State::Init => 1,
            State::TryOpen => 2,
            State::Open => 3,
            State::Closed => 4,
        }
    }
}

/// Delivery discipline of a channel: ordered channels deliver exactly in
/// send order, unordered channels deduplicate by receipt.
#[derive(Clone, Copy, Debug, PartialEq, Eq, Structural, Hash)]
pub enum Order {
    Ordered,
    Unordered,
}

/// The counterparty of a channel: its port, and its channel identifier once
/// allocated.
#[derive(Debug, PartialEq, Eq)]
pub struct Counterparty {
    pub port_id: PortId,
    pub channel_id: Option<ChannelId>,
}

#[verifier::ext_equal]
pub struct CounterpartyView {
    pub port_id: Seq<char>,
    pub channel_id: Option<Seq<char>>,
}

impl View for Counterparty {
    type V = CounterpartyView;

    open spec fn view(&self) -> CounterpartyView {
        CounterpartyView {
            port_id: self.port_id@,
            channel_id: match self.channel_id {
                Some(ref id) => Some(id@),
                None => None,
            },
        }
    }
}

impl Clone for Counterparty {
    fn clone(&self) -> (r: Self)
        ensures
            r@ == self@,
    {
        Counterparty {
            port_id: self.port_id.clone(),
            channel_id: match &self.channel_id {
                Some(id) => Some(id.clone()),
                None => None,
            },
        }
    }
}

impl Counterparty {
    pub fn new(port_id: PortId, channel_id: Option<ChannelId>) -> (r: Counterparty)
        ensures
            r.port_id == port_id,
            r.channel_id == channel_id,
    {
        Counterparty { port_id, channel_id }
    }
}

/// One side's record of a channel.
#[derive(Debug, PartialEq, Eq)]
pub struct ChannelEnd {
    pub state: State,
    pub ordering: Order,
    pub counterparty: Counterparty,
    pub connection_hops: Vec<ConnectionId>,
    pub version: String,
}

#[verifier::ext_equal]
pub struct ChannelEndView {
    pub state: State,
    pub ordering: Order,
    pub counterparty: CounterpartyView,
    pub connection_hops: Seq<Seq<char>>,
    pub version: Seq<char>,
}

impl View for ChannelEnd {
    type V = ChannelEndView;

    open spec fn view(&self) -> ChannelEndView {
        ChannelEndView {
            state: self.state,
            ordering: self.ordering,
            counterparty: self.counterparty@,
            connection_hops: self.connection_hops.deep_view(),
            version: self.version@,
        }
    }
}

impl Clone for ChannelEnd {
    fn clone(&self) -> (r: Self)
        ensures
            r@ == self@,
    {
        let mut hops: Vec<ConnectionId> = Vec::new();
        let mut i: usize = 0;
        while i < self.connection_hops.len()
            invariant
                i <= self.connection_hops.len(),
                hops@.len() == i,
                forall|j: int| 0 <= j < i ==> hops@[j]@ == #[trigger] self.connection_hops@[j]@,
            decreases self.connection_hops.len() - i,
        {
            hops.push(self.connection_hops[i].clone());
            i += 1;
        }
        proof {
            assert forall|j: int| 0 <= j < hops@.len() implies hops.deep_view()[j]
                == self.connection_hops.deep_view()[j] by {
                assert(hops@[j]@ == self.connection_hops@[j]@);
            }
            assert(hops.deep_view() =~= self.connection_hops.deep_view());
        }
        let r = ChannelEnd {
            state: self.state,
            ordering: self.ordering,
            counterparty: self.counterparty.clone(),
            connection_hops: hops,
            version: self.version.clone(),
        };
        proof {
            assert(r@ =~~= self@);
        }
        r
    }
}

impl ChannelEnd {
    /// Channels in this implementation span a single connection.
    pub open spec fn well_formed(&self) -> bool {
        self.connection_hops@.len() == 1
    }

    /// Builds a channel end over a single connection hop.
    pub fn new(
        state: State,
        ordering: Order,
        counterparty: Counterparty,
        connection_hops: Vec<ConnectionId>,
        version: String,
    ) -> (r: Result<ChannelEnd, ChannelError>)
        ensures
            r is Ok <==> connection_hops@.len() == 1,
            r matches Ok(c) ==> {
                &&& c.state == state
                &&& c.ordering == ordering
                &&& c.counterparty@ == counterparty@
                &&& c.connection_hops.deep_view() == connection_hops.deep_view()
                &&& c.version@ == version@
                &&& c.well_formed()
            },
            r is Err ==> r == Err::<ChannelEnd, ChannelError>(
                ChannelError::UndefinedConnectionCounterparty,
            ),
    {
        if connection_hops.len() != 1 {
            return Err(ChannelError::UndefinedConnectionCounterparty);
        }
        Ok(ChannelEnd { state, ordering, counterparty, connection_hops, version })
    }

    pub fn state(&self) -> (r: State)
        ensures
            r == self.state,
    {
        self.state
    }

    pub fn ordering(&self) -> (r: Order)
        ensures
            r == self.ordering,
    {
        self.ordering
    }

    pub fn counterparty(&self) -> (r: &Counterparty)
        ensures
            r@ == self.counterparty@,
    {
        &self.counterparty
    }

    pub fn set_state(&mut self, state: State)
        ensures
            final(self).state == state,
            final(self).ordering == old(self).ordering,
            final(self).counterparty@ == old(self).counterparty@,
            final(self).connection_hops.deep_view() == old(self).connection_hops.deep_view(),
            final(self).version@ == old(self).version@,
    {
        self.state = state;
    }

    /// The channel can still be closed: it is not already `Closed`.
    pub fn verify_not_closed(&self) -> (r: Result<(), ChannelError>)
        ensures
            r is Ok <==> self.state != State::Closed,
            r is Err ==> r == Err::<(), ChannelError>(
                ChannelError::InvalidState {
                    expected: state_code(State::Open),
                    actual: state_code(self.state),
                },
            ),
    {
        if self.state == State::Closed {
            Err(
                ChannelError::InvalidState {
                    expected: State::Open.code(),
                    actual: self.state.code(),
                },
            )
        } else {
            Ok(())
        }
    }

    /// Checks the end is in the expected handshake state.
    pub fn verify_state_matches(&self, expected: &State) -> (r: Result<(), ChannelError>)
        ensures
            r is Ok <==> self.state == *expected,
            r is Err ==> r == Err::<(), ChannelError>(
                ChannelError::InvalidState {
                    expected: state_code(*expected),
                    actual: state_code(self.state),
                },
            ),
    {
        if self.state == *expected {
            Ok(())
        } else {
            Err(
                ChannelError::InvalidState {
                    expected: expected.code(),
                    actual: self.state.code(),
                },
            )
        }
    }
}

} // verus!
