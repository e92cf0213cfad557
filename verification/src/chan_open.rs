//! The four-step channel open handshake. Each handler checks the local
//! connection, lets the module bound to the port negotiate the version, and
//! advances the channel end exactly one step along
//! `Uninitialized -> Init -> TryOpen -> Open`; any other transition is
//! rejected.

use vstd::prelude::*;

use crate::chan_msgs::{
    MsgChannelOpenAck, MsgChannelOpenConfirm, MsgChannelOpenInit, MsgChannelOpenTry,
};
use crate::channel::{ChannelEnd, ChannelEndView, Counterparty, State as ChannelState};
use crate::client::{client_status, Status};
use crate::connection::State as ConnectionState;
use crate::errors::{ChannelError, ClientError, ConnectionError, ContextError};
use crate::events::{IbcEvent, MessageEvent};
use crate::host::HostState;
use crate::identifier::{dec_str, ChannelId, ConnectionId};
use crate::path::{height_key, port_channel_key};
use crate::router::Module;

verus! {

/// When `ChanOpenInit` is accepted on chain A: the signer is well formed;
/// the message names exactly one connection hop, which exists and is
/// `Open`; and a fresh channel identifier can still be allocated.
pub open spec fn chan_open_init_ok(st: HostState, m: MsgChannelOpenInit) -> bool {
    &&& m.signer@.len() > 0
    &&& m.connection_hops_on_a@.len() == 1
    &&& st.connections@.contains_key(m.connection_hops_on_a@[0]@)
    &&& st.connections@[m.connection_hops_on_a@[0]@].state == ConnectionState::Open
    &&& st.channel_counter < u64::MAX
}

/// Starts the channel handshake on chain A: allocates the next channel
/// identifier, stores a channel end in `Init` with the module's version,
/// and starts all three sequence counters at 1.
pub fn chan_open_init<M: Module>(
    ctx_a: &mut HostState,
    module: &mut M,
    mut msg: MsgChannelOpenInit,
) -> (r: Result<(), ContextError>)
    requires
        old(ctx_a).well_formed(),
    ensures
        final(ctx_a).well_formed(),
        r is Ok ==> chan_open_init_ok(*old(ctx_a), msg),
        !chan_open_init_ok(*old(ctx_a), msg) ==> r is Err,
        r is Err ==> *final(ctx_a) == *old(ctx_a),
        r is Ok ==> {
            let chan_id = "channel-"@ + dec_str(old(ctx_a).channel_counter as nat);
            let ck = port_channel_key(msg.port_id_on_a@, chan_id);
            &&& (exists|ce: ChannelEnd|
                {
                    &&& ce.state == ChannelState::Init
                    &&& ce.ordering == msg.ordering
                    &&& ce.counterparty.port_id@ == msg.port_id_on_b@
                    &&& ce.counterparty.channel_id is None
                    &&& ce.connection_hops.deep_view() == seq![msg.connection_hops_on_a@[0]@]
                    &&& final(ctx_a).channels@ == old(ctx_a).channels@.insert(ck, ce)
                })
            &&& final(ctx_a).next_seq_send@ == old(ctx_a).next_seq_send@.insert(ck, 1)
            &&& final(ctx_a).next_seq_recv@ == old(ctx_a).next_seq_recv@.insert(ck, 1)
            &&& final(ctx_a).next_seq_ack@ == old(ctx_a).next_seq_ack@.insert(ck, 1)
            &&& final(ctx_a).channel_counter == old(ctx_a).channel_counter + 1
            &&& final(ctx_a).connections == old(ctx_a).connections
            &&& final(ctx_a).clients == old(ctx_a).clients
            &&& final(ctx_a).packet_commitments == old(ctx_a).packet_commitments
            &&& final(ctx_a).events@.len() >= old(ctx_a).events@.len() + 2
            &&& final(ctx_a).events@.subrange(0, old(ctx_a).events@.len() as int)
                == old(ctx_a).events@
            &&& final(ctx_a).events@[old(ctx_a).events@.len() as int] == IbcEvent::Message(
                MessageEvent::Channel,
            )
            &&& (final(ctx_a).events@[old(ctx_a).events@.len() as int + 1] matches
                IbcEvent::OpenInitChannel { port_id_on_a, chan_id_on_a, conn_id_on_a }
                && port_id_on_a@ == msg.port_id_on_a@ && chan_id_on_a@ == chan_id && conn_id_on_a@
                == msg.connection_hops_on_a@[0]@)
        },
{
    match ctx_a.validate_message_signer(&msg.signer) {
        Ok(()) => (),
        Err(e) => {
            return Err(e);
        },
    }
    if msg.connection_hops_on_a.len() != 1 {
        return Err(ContextError::Connection(ConnectionError::ConnectionNotFound));
    }
    let conn_end_on_a = match ctx_a.connection_end(&msg.connection_hops_on_a[0]) {
        Ok(c) => c,
        Err(e) => {
            return Err(ContextError::Connection(e));
        },
    };
    match conn_end_on_a.verify_state_matches(&ConnectionState::Open) {
        Ok(()) => (),
        Err(e) => {
            return Err(ContextError::Connection(e));
        },
    }
    if ctx_a.channel_counter == u64::MAX {
        return Err(ContextError::Connection(ConnectionError::ConnectionCounterOverflow));
    }
    let chan_id_on_a = ChannelId::new(ctx_a.channel_counter);
    let (extras, version) = match module.on_chan_open_init_execute(
        &msg.port_id_on_a,
        &chan_id_on_a,
        &msg.version_proposal,
    ) {
        Ok(r) => r,
        Err(e) => {
            return Err(ContextError::Channel(e));
        },
    };
    ctx_a.channel_counter = ctx_a.channel_counter + 1;
    let mut hops: Vec<ConnectionId> = Vec::new();
    hops.push(msg.connection_hops_on_a[0].clone());
    let chan_end = match ChannelEnd::new(
        ChannelState::Init,
        msg.ordering,
        Counterparty::new(msg.port_id_on_b.clone(), None),
        hops,
        version,
    ) {
        Ok(c) => c,
        Err(e) => {
            proof {
                assert(false);
            }
            return Err(ContextError::Channel(e));
        },
    };
    let key = crate::path::port_channel_string(&msg.port_id_on_a, &chan_id_on_a);
    ctx_a.channels.insert(key, chan_end);
    let key = crate::path::port_channel_string(&msg.port_id_on_a, &chan_id_on_a);
    ctx_a.next_seq_send.insert(key, 1);
    let key = crate::path::port_channel_string(&msg.port_id_on_a, &chan_id_on_a);
    ctx_a.next_seq_recv.insert(key, 1);
    let key = crate::path::port_channel_string(&msg.port_id_on_a, &chan_id_on_a);
    ctx_a.next_seq_ack.insert(key, 1);
    ctx_a.emit_ibc_event(IbcEvent::Message(MessageEvent::Channel));
    ctx_a.emit_ibc_event(
        IbcEvent::OpenInitChannel {
            port_id_on_a: msg.port_id_on_a,
            chan_id_on_a,
            conn_id_on_a: match msg.connection_hops_on_a.pop() {
                Some(c) => c,
                None => {
                    proof {
                        assert(false);
                    }
                    return Err(ContextError::Connection(ConnectionError::ConnectionNotFound));
                },
            },
        },
    );
    proof {
        let n0 = old(ctx_a).events@.len() as int;
        assert(ctx_a.events@.subrange(0, n0) =~= old(ctx_a).events@);
    }
    Ok(())
}

/// When `ChanOpenTry` is accepted on chain B: as `ChanOpenInit`, plus the
/// client tracking chain A is active, covers the proof height and has a
/// consensus state there for the proof of chain A's `Init` end.
pub open spec fn chan_open_try_ok(st: HostState, m: MsgChannelOpenTry) -> bool {
    &&& m.signer@.len() > 0
    &&& m.connection_hops_on_b@.len() == 1
    &&& st.connections@.contains_key(m.connection_hops_on_b@[0]@)
    &&& st.connections@[m.connection_hops_on_b@[0]@].state == ConnectionState::Open
    &&& {
        let client_key = st.connections@[m.connection_hops_on_b@[0]@].client_id@;
        &&& st.clients@.contains_key(client_key)
        &&& client_status(st.clients@[client_key], st.host_timestamp) == Status::Active
        &&& m.proof_height_on_a.spec_le(st.clients@[client_key].latest_height)
        &&& st.clients@[client_key].consensus_states@.contains_key(
            height_key(m.proof_height_on_a),
        )
    }
    &&& st.channel_counter < u64::MAX
}

/// Answers the channel handshake on chain B: verifies chain A's `Init` end,
/// allocates the next channel identifier, stores a channel end in `TryOpen`
/// pointing back at chain A, and starts the sequence counters at 1.
pub fn chan_open_try<M: Module>(
    ctx_b: &mut HostState,
    module: &mut M,
    mut msg: MsgChannelOpenTry,
    chan_proof_verified: bool,
) -> (r: Result<(), ContextError>)
    requires
        old(ctx_b).well_formed(),
    ensures
        final(ctx_b).well_formed(),
        r is Ok ==> chan_open_try_ok(*old(ctx_b), msg) && chan_proof_verified,
        !(chan_open_try_ok(*old(ctx_b), msg) && chan_proof_verified) ==> r is Err,
        (chan_open_try_ok(*old(ctx_b), msg) && !chan_proof_verified) ==> r == Err::<(), ContextError>(
            ContextError::Channel(ChannelError::VerifyChannelFailed),
        ),
        r is Err ==> *final(ctx_b) == *old(ctx_b),
        r is Ok ==> {
            let chan_id = "channel-"@ + dec_str(old(ctx_b).channel_counter as nat);
            let ck = port_channel_key(msg.port_id_on_b@, chan_id);
            &&& (exists|ce: ChannelEnd|
                {
                    &&& ce.state == ChannelState::TryOpen
                    &&& ce.ordering == msg.ordering
                    &&& ce.counterparty.port_id@ == msg.port_id_on_a@
                    &&& (ce.counterparty.channel_id matches Some(c) && c@ == msg.chan_id_on_a@)
                    &&& ce.connection_hops.deep_view() == seq![msg.connection_hops_on_b@[0]@]
                    &&& final(ctx_b).channels@ == old(ctx_b).channels@.insert(ck, ce)
                })
            &&& final(ctx_b).next_seq_send@ == old(ctx_b).next_seq_send@.insert(ck, 1)
            &&& final(ctx_b).next_seq_recv@ == old(ctx_b).next_seq_recv@.insert(ck, 1)
            &&& final(ctx_b).next_seq_ack@ == old(ctx_b).next_seq_ack@.insert(ck, 1)
            &&& final(ctx_b).channel_counter == old(ctx_b).channel_counter + 1
            &&& final(ctx_b).connections == old(ctx_b).connections
            &&& final(ctx_b).clients == old(ctx_b).clients
            &&& final(ctx_b).packet_commitments == old(ctx_b).packet_commitments
            &&& final(ctx_b).events@.len() >= old(ctx_b).events@.len() + 2
            &&& final(ctx_b).events@.subrange(0, old(ctx_b).events@.len() as int)
                == old(ctx_b).events@
            &&& final(ctx_b).events@[old(ctx_b).events@.len() as int] == IbcEvent::Message(
                MessageEvent::Channel,
            )
            &&& (final(ctx_b).events@[old(ctx_b).events@.len() as int + 1] matches
                IbcEvent::OpenTryChannel { port_id_on_b, chan_id_on_b, conn_id_on_b }
                && port_id_on_b@ == msg.port_id_on_b@ && chan_id_on_b@ == chan_id && conn_id_on_b@
                == msg.connection_hops_on_b@[0]@)
        },
{
    match ctx_b.validate_message_signer(&msg.signer) {
        Ok(()) => (),
        Err(e) => {
            return Err(e);
        },
    }
    if msg.connection_hops_on_b.len() != 1 {
        return Err(ContextError::Connection(ConnectionError::ConnectionNotFound));
    }
    let conn_end_on_b = match ctx_b.connection_end(&msg.connection_hops_on_b[0]) {
        Ok(c) => c,
        Err(e) => {
            return Err(ContextError::Connection(e));
        },
    };
    match conn_end_on_b.verify_state_matches(&ConnectionState::Open) {
        Ok(()) => (),
        Err(e) => {
            return Err(ContextError::Connection(e));
        },
    }
    let client = match ctx_b.client_record(&conn_end_on_b.client_id) {
        Ok(c) => c,
        Err(e) => {
            return Err(ContextError::Client(e));
        },
    };
    let host_timestamp = ctx_b.host_timestamp();
    let status = client.status(&host_timestamp);
    if !status.is_active() {
        return Err(ContextError::Client(ClientError::ClientNotActive { status }));
    }
    match client.validate_proof_height(&msg.proof_height_on_a) {
        Ok(()) => (),
        Err(e) => {
            return Err(ContextError::Client(e));
        },
    }
    match client.consensus_state_at(&msg.proof_height_on_a) {
        Some(_) => (),
        None => {
            return Err(ContextError::Client(ClientError::ConsensusStateNotFound));
        },
    }
    // The proof must show the channel end chain A stored during
    // `ChanOpenInit`: `Init`, pointing at this port with no channel yet.
    if !chan_proof_verified {
        return Err(ContextError::Channel(ChannelError::VerifyChannelFailed));
    }
    if ctx_b.channel_counter == u64::MAX {
        return Err(ContextError::Connection(ConnectionError::ConnectionCounterOverflow));
    }
    let chan_id_on_b = ChannelId::new(ctx_b.channel_counter);
    let (extras, version) = match module.on_chan_open_try_execute(
        &msg.port_id_on_b,
        &chan_id_on_b,
        &msg.version_supported_on_a,
    ) {
        Ok(r) => r,
        Err(e) => {
            return Err(ContextError::Channel(e));
        },
    };
    ctx_b.channel_counter = ctx_b.channel_counter + 1;
    let mut hops: Vec<ConnectionId> = Vec::new();
    hops.push(msg.connection_hops_on_b[0].clone());
    let chan_end = match ChannelEnd::new(
        ChannelState::TryOpen,
        msg.ordering,
        Counterparty::new(msg.port_id_on_a.clone(), Some(msg.chan_id_on_a.clone())),
        hops,
        version,
    ) {
        Ok(c) => c,
        Err(e) => {
            proof {
                assert(false);
            }
            return Err(ContextError::Channel(e));
        },
    };
    let key = crate::path::port_channel_string(&msg.port_id_on_b, &chan_id_on_b);
    ctx_b.channels.insert(key, chan_end);
    let key = crate::path::port_channel_string(&msg.port_id_on_b, &chan_id_on_b);
    ctx_b.next_seq_send.insert(key, 1);
    let key = crate::path::port_channel_string(&msg.port_id_on_b, &chan_id_on_b);
    ctx_b.next_seq_recv.insert(key, 1);
    let key = crate::path::port_channel_string(&msg.port_id_on_b, &chan_id_on_b);
    ctx_b.next_seq_ack.insert(key, 1);
    ctx_b.emit_ibc_event(IbcEvent::Message(MessageEvent::Channel));
    ctx_b.emit_ibc_event(
        IbcEvent::OpenTryChannel {
            port_id_on_b: msg.port_id_on_b,
            chan_id_on_b,
            conn_id_on_b: match msg.connection_hops_on_b.pop() {
                Some(c) => c,
                None => {
                    proof {
                        assert(false);
                    }
                    return Err(ContextError::Connection(ConnectionError::ConnectionNotFound));
                },
            },
        },
    );
    proof {
        let n0 = old(ctx_b).events@.len() as int;
        assert(ctx_b.events@.subrange(0, n0) =~= old(ctx_b).events@);
    }
    Ok(())
}

/// When `ChanOpenAck` is accepted on chain A: the signer is well formed;
/// the channel exists, is still in `Init` and has one connection hop; that
/// connection is `Open`; and the client tracking chain B is active, covers
/// the proof height and has a consensus state there.
pub open spec fn chan_open_ack_ok(st: HostState, m: MsgChannelOpenAck) -> bool {
    let ck = port_channel_key(m.port_id_on_a@, m.chan_id_on_a@);
    &&& m.signer@.len() > 0
    &&& st.channels@.contains_key(ck)
    &&& st.channels@[ck].state == ChannelState::Init
    &&& st.channels@[ck].connection_hops@.len() == 1
    &&& {
        let conn_key = st.channels@[ck].connection_hops@[0]@;
        &&& st.connections@.contains_key(conn_key)
        &&& st.connections@[conn_key].state == ConnectionState::Open
        &&& {
            let client_key = st.connections@[conn_key].client_id@;
            &&& st.clients@.contains_key(client_key)
            &&& client_status(st.clients@[client_key], st.host_timestamp) == Status::Active
            &&& m.proof_height_on_b.spec_le(st.clients@[client_key].latest_height)
            &&& st.clients@[client_key].consensus_states@.contains_key(
                height_key(m.proof_height_on_b),
            )
        }
    }
}

/// Finishes the handshake on chain A: with proof that chain B's end is in
/// `TryOpen` and points back here, the channel moves `Init -> Open` and
/// records chain B's channel identifier and version.
pub fn chan_open_ack<M: Module>(
    ctx_a: &mut HostState,
    module: &mut M,
    msg: MsgChannelOpenAck,
    chan_proof_verified: bool,
) -> (r: Result<(), ContextError>)
    requires
        old(ctx_a).well_formed(),
    ensures
        final(ctx_a).well_formed(),
        r is Ok ==> chan_open_ack_ok(*old(ctx_a), msg) && chan_proof_verified,
        !(chan_open_ack_ok(*old(ctx_a), msg) && chan_proof_verified) ==> r is Err,
        (chan_open_ack_ok(*old(ctx_a), msg) && !chan_proof_verified) ==> r == Err::<(), ContextError>(
            ContextError::Channel(ChannelError::VerifyChannelFailed),
        ),
        r is Err ==> *final(ctx_a) == *old(ctx_a),
        r is Ok ==> {
            let ck = port_channel_key(msg.port_id_on_a@, msg.chan_id_on_a@);
            let stored = old(ctx_a).channels@[ck];
            &&& (exists|ce: ChannelEnd|
                {
                    &&& ce.state == ChannelState::Open
                    &&& ce.ordering == stored.ordering
                    &&& ce.counterparty.port_id@ == stored.counterparty.port_id@
                    &&& (ce.counterparty.channel_id matches Some(c) && c@ == msg.chan_id_on_b@)
                    &&& ce.connection_hops.deep_view() == stored.connection_hops.deep_view()
                    &&& ce.version@ == msg.version_on_b@
                    &&& final(ctx_a).channels@ == old(ctx_a).channels@.insert(ck, ce)
                })
            &&& final(ctx_a).connections == old(ctx_a).connections
            &&& final(ctx_a).clients == old(ctx_a).clients
            &&& final(ctx_a).packet_commitments == old(ctx_a).packet_commitments
            &&& final(ctx_a).next_seq_send == old(ctx_a).next_seq_send
            &&& final(ctx_a).events@.len() >= old(ctx_a).events@.len() + 2
            &&& final(ctx_a).events@.subrange(0, old(ctx_a).events@.len() as int)
                == old(ctx_a).events@
            &&& final(ctx_a).events@[old(ctx_a).events@.len() as int] == IbcEvent::Message(
                MessageEvent::Channel,
            )
            &&& (final(ctx_a).events@[old(ctx_a).events@.len() as int + 1] matches
                IbcEvent::OpenAckChannel { port_id_on_a, chan_id_on_a, chan_id_on_b }
                && port_id_on_a@ == msg.port_id_on_a@ && chan_id_on_a@ == msg.chan_id_on_a@
                && chan_id_on_b@ == msg.chan_id_on_b@)
        },
{
    match ctx_a.validate_message_signer(&msg.signer) {
        Ok(()) => (),
        Err(e) => {
            return Err(e);
        },
    }
    let chan_end_on_a = match ctx_a.channel_end(&msg.port_id_on_a, &msg.chan_id_on_a) {
        Ok(c) => c,
        Err(e) => {
            return Err(ContextError::Channel(e));
        },
    };
    match chan_end_on_a.verify_state_matches(&ChannelState::Init) {
        Ok(()) => (),
        Err(e) => {
            return Err(ContextError::Channel(e));
        },
    }
    let ghost stored = ctx_a.channels@[port_channel_key(msg.port_id_on_a@, msg.chan_id_on_a@)];
    proof {
        assert(chan_end_on_a.connection_hops.deep_view() == stored.connection_hops.deep_view());
        assert(chan_end_on_a.connection_hops.deep_view().len()
            == chan_end_on_a.connection_hops@.len());
        assert(stored.connection_hops.deep_view().len() == stored.connection_hops@.len());
    }
    if chan_end_on_a.connection_hops.len() != 1 {
        return Err(ContextError::Connection(ConnectionError::ConnectionNotFound));
    }
    proof {
        assert(chan_end_on_a.connection_hops.deep_view()[0]
            == chan_end_on_a.connection_hops@[0]@);
        assert(stored.connection_hops.deep_view()[0] == stored.connection_hops@[0]@);
    }
    let conn_end_on_a = match ctx_a.connection_end(&chan_end_on_a.connection_hops[0]) {
        Ok(c) => c,
        Err(e) => {
            return Err(ContextError::Connection(e));
        },
    };
    match conn_end_on_a.verify_state_matches(&ConnectionState::Open) {
        Ok(()) => (),
        Err(e) => {
            return Err(ContextError::Connection(e));
        },
    }
    let client = match ctx_a.client_record(&conn_end_on_a.client_id) {
        Ok(c) => c,
        Err(e) => {
            return Err(ContextError::Client(e));
        },
    };
    let host_timestamp = ctx_a.host_timestamp();
    let status = client.status(&host_timestamp);
    if !status.is_active() {
        return Err(ContextError::Client(ClientError::ClientNotActive { status }));
    }
    match client.validate_proof_height(&msg.proof_height_on_b) {
        Ok(()) => (),
        Err(e) => {
            return Err(ContextError::Client(e));
        },
    }
    match client.consensus_state_at(&msg.proof_height_on_b) {
        Some(_) => (),
        None => {
            return Err(ContextError::Client(ClientError::ConsensusStateNotFound));
        },
    }
    // The proof must show the channel end chain B stored during
    // `ChanOpenTry`: `TryOpen`, pointing back at this port and channel.
    if !chan_proof_verified {
        return Err(ContextError::Channel(ChannelError::VerifyChannelFailed));
    }
    let extras = match module.on_chan_open_ack_execute(
        &msg.port_id_on_a,
        &msg.chan_id_on_a,
        &msg.version_on_b,
    ) {
        Ok(r) => r,
        Err(e) => {
            return Err(ContextError::Channel(e));
        },
    };
    let mut hops: Vec<ConnectionId> = Vec::new();
    hops.push(chan_end_on_a.connection_hops[0].clone());
    proof {
        assert(hops.deep_view() =~= stored.connection_hops.deep_view());
    }
    let updated = match ChannelEnd::new(
        ChannelState::Open,
        chan_end_on_a.ordering,
        Counterparty::new(
            chan_end_on_a.counterparty.port_id.clone(),
            Some(msg.chan_id_on_b.clone()),
        ),
        hops,
        msg.version_on_b,
    ) {
        Ok(c) => c,
        Err(e) => {
            proof {
                assert(false);
            }
            return Err(ContextError::Channel(e));
        },
    };
    let key = crate::path::port_channel_string(&msg.port_id_on_a, &msg.chan_id_on_a);
    ctx_a.channels.insert(key, updated);
    ctx_a.emit_ibc_event(IbcEvent::Message(MessageEvent::Channel));
    ctx_a.emit_ibc_event(
        IbcEvent::OpenAckChannel {
            port_id_on_a: msg.port_id_on_a,
            chan_id_on_a: msg.chan_id_on_a,
            chan_id_on_b: msg.chan_id_on_b,
        },
    );
    proof {
        let n0 = old(ctx_a).events@.len() as int;
        assert(ctx_a.events@.subrange(0, n0) =~= old(ctx_a).events@);
    }
    Ok(())
}

/// When `ChanOpenConfirm` is accepted on chain B: the signer is well
/// formed; the channel exists, is still in `TryOpen`, has a counterparty
/// channel identifier and one connection hop; that connection is `Open`;
/// and the client tracking chain A is active, covers the proof height and
/// has a consensus state there.
pub open spec fn chan_open_confirm_ok(st: HostState, m: MsgChannelOpenConfirm) -> bool {
    let ck = port_channel_key(m.port_id_on_b@, m.chan_id_on_b@);
    &&& m.signer@.len() > 0
    &&& st.channels@.contains_key(ck)
    &&& st.channels@[ck].state == ChannelState::TryOpen
    &&& st.channels@[ck].counterparty.channel_id is Some
    &&& st.channels@[ck].connection_hops@.len() == 1
    &&& {
        let conn_key = st.channels@[ck].connection_hops@[0]@;
        &&& st.connections@.contains_key(conn_key)
        &&& st.connections@[conn_key].state == ConnectionState::Open
        &&& st.connections@[conn_key].counterparty.connection_id is Some
        &&& {
            let client_key = st.connections@[conn_key].client_id@;
            &&& st.clients@.contains_key(client_key)
            &&& client_status(st.clients@[client_key], st.host_timestamp) == Status::Active
            &&& m.proof_height_on_a.spec_le(st.clients@[client_key].latest_height)
            &&& st.clients@[client_key].consensus_states@.contains_key(
                height_key(m.proof_height_on_a),
            )
        }
    }
}

/// Finishes the handshake on chain B: with proof that chain A's end is
/// `Open`, the channel moves `TryOpen -> Open`.
pub fn chan_open_confirm<M: Module>(
    ctx_b: &mut HostState,
    module: &mut M,
    msg: MsgChannelOpenConfirm,
    chan_proof_verified: bool,
) -> (r: Result<(), ContextError>)
    requires
        old(ctx_b).well_formed(),
    ensures
        final(ctx_b).well_formed(),
        r is Ok ==> chan_open_confirm_ok(*old(ctx_b), msg) && chan_proof_verified,
        !(chan_open_confirm_ok(*old(ctx_b), msg) && chan_proof_verified) ==> r is Err,
        (chan_open_confirm_ok(*old(ctx_b), msg) && !chan_proof_verified) ==> r == Err::<(), ContextError>(
            ContextError::Channel(ChannelError::VerifyChannelFailed),
        ),
        r is Err ==> *final(ctx_b) == *old(ctx_b),
        r is Ok ==> {
            let ck = port_channel_key(msg.port_id_on_b@, msg.chan_id_on_b@);
            let stored = old(ctx_b).channels@[ck];
            &&& (exists|ce: ChannelEnd|
                ce@ == (ChannelEndView { state: ChannelState::Open, ..stored@ })
                    && final(ctx_b).channels@ == old(ctx_b).channels@.insert(ck, ce))
            &&& final(ctx_b).connections == old(ctx_b).connections
            &&& final(ctx_b).clients == old(ctx_b).clients
            &&& final(ctx_b).packet_commitments == old(ctx_b).packet_commitments
            &&& final(ctx_b).events@.len() >= old(ctx_b).events@.len() + 2
            &&& final(ctx_b).events@.subrange(0, old(ctx_b).events@.len() as int)
                == old(ctx_b).events@
            &&& final(ctx_b).events@[old(ctx_b).events@.len() as int] == IbcEvent::Message(
                MessageEvent::Channel,
            )
            &&& (final(ctx_b).events@[old(ctx_b).events@.len() as int + 1] matches
                IbcEvent::OpenConfirmChannel { port_id_on_b, chan_id_on_b } && port_id_on_b@
                == msg.port_id_on_b@ && chan_id_on_b@ == msg.chan_id_on_b@)
        },
{
    match ctx_b.validate_message_signer(&msg.signer) {
        Ok(()) => (),
        Err(e) => {
            return Err(e);
        },
    }
    let chan_end_on_b = match ctx_b.channel_end(&msg.port_id_on_b, &msg.chan_id_on_b) {
        Ok(c) => c,
        Err(e) => {
            return Err(ContextError::Channel(e));
        },
    };
    match chan_end_on_b.verify_state_matches(&ChannelState::TryOpen) {
        Ok(()) => (),
        Err(e) => {
            return Err(ContextError::Channel(e));
        },
    }
    let chan_id_on_a = match &chan_end_on_b.counterparty.channel_id {
        Some(c) => c,
        None => {
            return Err(ContextError::Channel(ChannelError::MissingCounterparty));
        },
    };
    let ghost stored = ctx_b.channels@[port_channel_key(msg.port_id_on_b@, msg.chan_id_on_b@)];
    proof {
        assert(chan_end_on_b.connection_hops.deep_view() == stored.connection_hops.deep_view());
        assert(chan_end_on_b.connection_hops.deep_view().len()
            == chan_end_on_b.connection_hops@.len());
        assert(stored.connection_hops.deep_view().len() == stored.connection_hops@.len());
    }
    if chan_end_on_b.connection_hops.len() != 1 {
        return Err(ContextError::Connection(ConnectionError::ConnectionNotFound));
    }
    proof {
        assert(chan_end_on_b.connection_hops.deep_view()[0]
            == chan_end_on_b.connection_hops@[0]@);
        assert(stored.connection_hops.deep_view()[0] == stored.connection_hops@[0]@);
    }
    let conn_end_on_b = match ctx_b.connection_end(&chan_end_on_b.connection_hops[0]) {
        Ok(c) => c,
        Err(e) => {
            return Err(ContextError::Connection(e));
        },
    };
    match conn_end_on_b.verify_state_matches(&ConnectionState::Open) {
        Ok(()) => (),
        Err(e) => {
            return Err(ContextError::Connection(e));
        },
    }
    let conn_id_on_a = match &conn_end_on_b.counterparty.connection_id {
        Some(c) => c,
        None => {
            return Err(ContextError::Channel(ChannelError::UndefinedConnectionCounterparty));
        },
    };
    let client = match ctx_b.client_record(&conn_end_on_b.client_id) {
        Ok(c) => c,
        Err(e) => {
            return Err(ContextError::Client(e));
        },
    };
    let host_timestamp = ctx_b.host_timestamp();
    let status = client.status(&host_timestamp);
    if !status.is_active() {
        return Err(ContextError::Client(ClientError::ClientNotActive { status }));
    }
    match client.validate_proof_height(&msg.proof_height_on_a) {
        Ok(()) => (),
        Err(e) => {
            return Err(ContextError::Client(e));
        },
    }
    match client.consensus_state_at(&msg.proof_height_on_a) {
        Some(_) => (),
        None => {
            return Err(ContextError::Client(ClientError::ConsensusStateNotFound));
        },
    }
    // The proof must show the channel end chain A holds once it completed
    // `ChanOpenAck`: `Open`, pointing back at this port and channel.
    if !chan_proof_verified {
        return Err(ContextError::Channel(ChannelError::VerifyChannelFailed));
    }
    let extras = match module.on_chan_open_confirm_execute(&msg.port_id_on_b, &msg.chan_id_on_b) {
        Ok(r) => r,
        Err(e) => {
            return Err(ContextError::Channel(e));
        },
    };
    let mut chan_end_open = chan_end_on_b;
    chan_end_open.set_state(ChannelState::Open);
    proof {
        assert(chan_end_open@ =~~= (ChannelEndView { state: ChannelState::Open, ..stored@ }));
    }
    let key = crate::path::port_channel_string(&msg.port_id_on_b, &msg.chan_id_on_b);
    ctx_b.channels.insert(key, chan_end_open);
    ctx_b.emit_ibc_event(IbcEvent::Message(MessageEvent::Channel));
    ctx_b.emit_ibc_event(
        IbcEvent::OpenConfirmChannel {
            port_id_on_b: msg.port_id_on_b,
            chan_id_on_b: msg.chan_id_on_b,
        },
    );
    proof {
        let n0 = old(ctx_b).events@.len() as int;
        assert(ctx_b.events@.subrange(0, n0) =~= old(ctx_b).events@);
    }
    Ok(())
}

/// Read-only validation of a `ChanOpenInit`: the host checks, then the
/// module bound to the port gets its veto on the version.
pub fn chan_open_init_validate<M: Module>(
    ctx_a: &HostState,
    module: &M,
    msg: &MsgChannelOpenInit,
) -> (r: Result<(), ContextError>)
    requires
        ctx_a.well_formed(),
    ensures
        r is Ok ==> chan_open_init_ok(*ctx_a, *msg),
        !chan_open_init_ok(*ctx_a, *msg) ==> r is Err,
{
    match ctx_a.validate_message_signer(&msg.signer) {
        Ok(()) => (),
        Err(e) => {
            return Err(e);
        },
    }
    if msg.connection_hops_on_a.len() != 1 {
        return Err(ContextError::Connection(ConnectionError::ConnectionNotFound));
    }
    let conn_end_on_a = match ctx_a.connection_end(&msg.connection_hops_on_a[0]) {
        Ok(c) => c,
        Err(e) => {
            return Err(ContextError::Connection(e));
        },
    };
    match conn_end_on_a.verify_state_matches(&ConnectionState::Open) {
        Ok(()) => (),
        Err(e) => {
            return Err(ContextError::Connection(e));
        },
    }
    if ctx_a.channel_counter == u64::MAX {
        return Err(ContextError::Connection(ConnectionError::ConnectionCounterOverflow));
    }
    let chan_id_on_a = ChannelId::new(ctx_a.channel_counter);
    match module.on_chan_open_init_validate(&msg.port_id_on_a, &chan_id_on_a, &msg.version_proposal) {
        Ok(_) => Ok(()),
        Err(e) => Err(ContextError::Channel(e)),
    }
}

/// Read-only validation of a `ChanOpenTry`: the host checks, the proof of
/// chain A's `Init` end is verified, then the module gets its veto.
pub fn chan_open_try_validate<M: Module>(
    ctx_b: &HostState,
    module: &M,
    msg: &MsgChannelOpenTry,
    chan_proof_verified: bool,
) -> (r: Result<(), ContextError>)
    requires
        ctx_b.well_formed(),
    ensures
        r is Ok ==> chan_open_try_ok(*ctx_b, *msg) && chan_proof_verified,
        !(chan_open_try_ok(*ctx_b, *msg) && chan_proof_verified) ==> r is Err,
        (chan_open_try_ok(*ctx_b, *msg) && !chan_proof_verified) ==> r == Err::<(), ContextError>(
            ContextError::Channel(ChannelError::VerifyChannelFailed),
        ),
{
    match ctx_b.validate_message_signer(&msg.signer) {
        Ok(()) => (),
        Err(e) => {
            return Err(e);
        },
    }
    if msg.connection_hops_on_b.len() != 1 {
        return Err(ContextError::Connection(ConnectionError::ConnectionNotFound));
    }
    let conn_end_on_b = match ctx_b.connection_end(&msg.connection_hops_on_b[0]) {
        Ok(c) => c,
        Err(e) => {
            return Err(ContextError::Connection(e));
        },
    };
    match conn_end_on_b.verify_state_matches(&ConnectionState::Open) {
        Ok(()) => (),
        Err(e) => {
            return Err(ContextError::Connection(e));
        },
    }
    let client = match ctx_b.client_record(&conn_end_on_b.client_id) {
        Ok(c) => c,
        Err(e) => {
            return Err(ContextError::Client(e));
        },
    };
    let host_timestamp = ctx_b.host_timestamp();
    let status = client.status(&host_timestamp);
    if !status.is_active() {
        return Err(ContextError::Client(ClientError::ClientNotActive { status }));
    }
    match client.validate_proof_height(&msg.proof_height_on_a) {
        Ok(()) => (),
        Err(e) => {
            return Err(ContextError::Client(e));
        },
    }
    match client.consensus_state_at(&msg.proof_height_on_a) {
        Some(_) => (),
        None => {
            return Err(ContextError::Client(ClientError::ConsensusStateNotFound));
        },
    }
    if ctx_b.channel_counter == u64::MAX {
        return Err(ContextError::Connection(ConnectionError::ConnectionCounterOverflow));
    }
    if !chan_proof_verified {
        return Err(ContextError::Channel(ChannelError::VerifyChannelFailed));
    }
    let chan_id_on_b = ChannelId::new(ctx_b.channel_counter);
    match module.on_chan_open_try_validate(
        &msg.port_id_on_b,
        &chan_id_on_b,
        &msg.version_supported_on_a,
    ) {
        Ok(_) => Ok(()),
        Err(e) => Err(ContextError::Channel(e)),
    }
}

/// Read-only validation of a `ChanOpenAck`: the host checks, the proof of
/// chain B's `TryOpen` end is verified, then the module gets its veto.
pub fn chan_open_ack_validate<M: Module>(
    ctx_a: &HostState,
    module: &M,
    msg: &MsgChannelOpenAck,
    chan_proof_verified: bool,
) -> (r: Result<(), ContextError>)
    requires
        ctx_a.well_formed(),
    ensures
        r is Ok ==> chan_open_ack_ok(*ctx_a, *msg) && chan_proof_verified,
        !(chan_open_ack_ok(*ctx_a, *msg) && chan_proof_verified) ==> r is Err,
        (chan_open_ack_ok(*ctx_a, *msg) && !chan_proof_verified) ==> r == Err::<(), ContextError>(
            ContextError::Channel(ChannelError::VerifyChannelFailed),
        ),
{
    match ctx_a.validate_message_signer(&msg.signer) {
        Ok(()) => (),
        Err(e) => {
            return Err(e);
        },
    }
    let chan_end_on_a = match ctx_a.channel_end(&msg.port_id_on_a, &msg.chan_id_on_a) {
        Ok(c) => c,
        Err(e) => {
            return Err(ContextError::Channel(e));
        },
    };
    match chan_end_on_a.verify_state_matches(&ChannelState::Init) {
        Ok(()) => (),
        Err(e) => {
            return Err(ContextError::Channel(e));
        },
    }
    let ghost stored = ctx_a.channels@[port_channel_key(msg.port_id_on_a@, msg.chan_id_on_a@)];
    proof {
        assert(chan_end_on_a.connection_hops.deep_view() == stored.connection_hops.deep_view());
        assert(chan_end_on_a.connection_hops.deep_view().len()
            == chan_end_on_a.connection_hops@.len());
        assert(stored.connection_hops.deep_view().len() == stored.connection_hops@.len());
    }
    if chan_end_on_a.connection_hops.len() != 1 {
        return Err(ContextError::Connection(ConnectionError::ConnectionNotFound));
    }
    proof {
        assert(chan_end_on_a.connection_hops.deep_view()[0]
            == chan_end_on_a.connection_hops@[0]@);
        assert(stored.connection_hops.deep_view()[0] == stored.connection_hops@[0]@);
    }
    let conn_end_on_a = match ctx_a.connection_end(&chan_end_on_a.connection_hops[0]) {
        Ok(c) => c,
        Err(e) => {
            return Err(ContextError::Connection(e));
        },
    };
    match conn_end_on_a.verify_state_matches(&ConnectionState::Open) {
        Ok(()) => (),
        Err(e) => {
            return Err(ContextError::Connection(e));
        },
    }
    let client = match ctx_a.client_record(&conn_end_on_a.client_id) {
        Ok(c) => c,
        Err(e) => {
            return Err(ContextError::Client(e));
        },
    };
    let host_timestamp = ctx_a.host_timestamp();
    let status = client.status(&host_timestamp);
    if !status.is_active() {
        return Err(ContextError::Client(ClientError::ClientNotActive { status }));
    }
    match client.validate_proof_height(&msg.proof_height_on_b) {
        Ok(()) => (),
        Err(e) => {
            return Err(ContextError::Client(e));
        },
    }
    match client.consensus_state_at(&msg.proof_height_on_b) {
        Some(_) => (),
        None => {
            return Err(ContextError::Client(ClientError::ConsensusStateNotFound));
        },
    }
    if !chan_proof_verified {
        return Err(ContextError::Channel(ChannelError::VerifyChannelFailed));
    }
    match module.on_chan_open_ack_validate(&msg.port_id_on_a, &msg.chan_id_on_a, &msg.version_on_b) {
        Ok(()) => Ok(()),
        Err(e) => Err(ContextError::Channel(e)),
    }
}

/// Read-only validation of a `ChanOpenConfirm`: the host checks, the proof
/// of chain A's `Open` end is verified, then the module gets its veto.
pub fn chan_open_confirm_validate<M: Module>(
    ctx_b: &HostState,
    module: &M,
    msg: &MsgChannelOpenConfirm,
    chan_proof_verified: bool,
) -> (r: Result<(), ContextError>)
    requires
        ctx_b.well_formed(),
    ensures
        r is Ok ==> chan_open_confirm_ok(*ctx_b, *msg) && chan_proof_verified,
        !(chan_open_confirm_ok(*ctx_b, *msg) && chan_proof_verified) ==> r is Err,
        (chan_open_confirm_ok(*ctx_b, *msg) && !chan_proof_verified) ==> r == Err::<(), ContextError>(
            ContextError::Channel(ChannelError::VerifyChannelFailed),
        ),
{
    match ctx_b.validate_message_signer(&msg.signer) {
        Ok(()) => (),
        Err(e) => {
            return Err(e);
        },
    }
    let chan_end_on_b = match ctx_b.channel_end(&msg.port_id_on_b, &msg.chan_id_on_b) {
        Ok(c) => c,
        Err(e) => {
            return Err(ContextError::Channel(e));
        },
    };
    match chan_end_on_b.verify_state_matches(&ChannelState::TryOpen) {
        Ok(()) => (),
        Err(e) => {
            return Err(ContextError::Channel(e));
        },
    }
    match &chan_end_on_b.counterparty.channel_id {
        Some(_) => (),
        None => {
            return Err(ContextError::Channel(ChannelError::MissingCounterparty));
        },
    }
    let ghost stored = ctx_b.channels@[port_channel_key(msg.port_id_on_b@, msg.chan_id_on_b@)];
    proof {
        assert(chan_end_on_b.connection_hops.deep_view() == stored.connection_hops.deep_view());
        assert(chan_end_on_b.connection_hops.deep_view().len()
            == chan_end_on_b.connection_hops@.len());
        assert(stored.connection_hops.deep_view().len() == stored.connection_hops@.len());
    }
    if chan_end_on_b.connection_hops.len() != 1 {
        return Err(ContextError::Connection(ConnectionError::ConnectionNotFound));
    }
    proof {
        assert(chan_end_on_b.connection_hops.deep_view()[0]
            == chan_end_on_b.connection_hops@[0]@);
        assert(stored.connection_hops.deep_view()[0] == stored.connection_hops@[0]@);
    }
    let conn_end_on_b = match ctx_b.connection_end(&chan_end_on_b.connection_hops[0]) {
        Ok(c) => c,
        Err(e) => {
            return Err(ContextError::Connection(e));
        },
    };
    match conn_end_on_b.verify_state_matches(&ConnectionState::Open) {
        Ok(()) => (),
        Err(e) => {
            return Err(ContextError::Connection(e));
        },
    }
    match &conn_end_on_b.counterparty.connection_id {
        Some(_) => (),
        None => {
            return Err(ContextError::Channel(ChannelError::UndefinedConnectionCounterparty));
        },
    }
    let client = match ctx_b.client_record(&conn_end_on_b.client_id) {
        Ok(c) => c,
        Err(e) => {
            return Err(ContextError::Client(e));
        },
    };
    let host_timestamp = ctx_b.host_timestamp();
    let status = client.status(&host_timestamp);
    if !status.is_active() {
        return Err(ContextError::Client(ClientError::ClientNotActive { status }));
    }
    match client.validate_proof_height(&msg.proof_height_on_a) {
        Ok(()) => (),
        Err(e) => {
            return Err(ContextError::Client(e));
        },
    }
    match client.consensus_state_at(&msg.proof_height_on_a) {
        Some(_) => (),
        None => {
            return Err(ContextError::Client(ClientError::ConsensusStateNotFound));
        },
    }
    if !chan_proof_verified {
        return Err(ContextError::Channel(ChannelError::VerifyChannelFailed));
    }
    match module.on_chan_open_confirm_validate(&msg.port_id_on_b, &msg.chan_id_on_b) {
        Ok(()) => Ok(()),
        Err(e) => Err(ContextError::Channel(e)),
    }
}

} // verus!
