//! Protocol logic for the second step of the channel close handshake: chain
//! B closes its end after verifying that chain A's end is already `Closed`.

use vstd::prelude::*;

use crate::chan_msgs::MsgChannelCloseConfirm;
use crate::channel::{ChannelEnd, ChannelEndView, Counterparty, State as ChannelState};
use crate::client::client_status;
use crate::client::Status;
use crate::connection::State as ConnectionState;
use crate::errors::{ChannelError, ClientError, ConnectionError, ContextError};
use crate::events::{IbcEvent, MessageEvent};
use crate::host::HostState;
use crate::identifier::ConnectionId;
use crate::path::{height_key, port_channel_key};
use crate::router::Module;

verus! {

/// When a `CloseConfirm` is accepted on chain B: the signer is well formed;
/// the channel exists, is not already `Closed`, has a counterparty channel
/// identifier and exactly one connection hop; that connection is `Open` and
/// names its counterparty connection; and the client tracking chain A is
/// active, covers the proof height, and has a consensus state there.
pub open spec fn chan_close_confirm_ok(
    st: HostState,
    m: crate::chan_msgs::MsgChannelCloseConfirmView,
) -> bool {
    let ck = port_channel_key(m.port_id_on_b, m.chan_id_on_b);
    &&& m.signer.len() > 0
    &&& st.channels@.contains_key(ck)
    &&& st.channels@[ck].state != ChannelState::Closed
    &&& st.channels@[ck].connection_hops@.len() == 1
    &&& st.channels@[ck].counterparty.channel_id is Some
    &&& {
        let conn_key = st.channels@[ck].connection_hops@[0]@;
        &&& st.connections@.contains_key(conn_key)
        &&& st.connections@[conn_key].state == ConnectionState::Open
        &&& st.connections@[conn_key].counterparty.connection_id is Some
        &&& {
            let client_key = st.connections@[conn_key].client_id@;
            &&& st.clients@.contains_key(client_key)
            &&& client_status(st.clients@[client_key], st.host_timestamp) == Status::Active
            &&& m.proof_height_on_a.spec_le(st.clients@[client_key].latest_height)
            &&& st.clients@[client_key].consensus_states@.contains_key(
                height_key(m.proof_height_on_a),
            )
        }
    }
}

/// The checks on the local channel end alone: the signer is well formed
/// and the channel exists, is not already `Closed`, and has one hop.
pub open spec fn close_confirm_channel_checks(
    st: HostState,
    m: crate::chan_msgs::MsgChannelCloseConfirmView,
) -> bool {
    let ck = port_channel_key(m.port_id_on_b, m.chan_id_on_b);
    &&& m.signer.len() > 0
    &&& st.channels@.contains_key(ck)
    &&& st.channels@[ck].state != ChannelState::Closed
    &&& st.channels@[ck].connection_hops@.len() == 1
}

/// The checks through the connection end: the channel names its
/// counterparty and its single connection exists and is `Open`.
pub open spec fn close_confirm_connection_checks(
    st: HostState,
    m: crate::chan_msgs::MsgChannelCloseConfirmView,
) -> bool {
    let ck = port_channel_key(m.port_id_on_b, m.chan_id_on_b);
    let conn_key = st.channels@[ck].connection_hops@[0]@;
    &&& close_confirm_channel_checks(st, m)
    &&& st.channels@[ck].counterparty.channel_id is Some
    &&& st.connections@.contains_key(conn_key)
    &&& st.connections@[conn_key].state == ConnectionState::Open
}

/// The status of the client the channel's connection rests on.
pub open spec fn close_confirm_client_status(
    st: HostState,
    m: crate::chan_msgs::MsgChannelCloseConfirmView,
) -> Status {
    let ck = port_channel_key(m.port_id_on_b, m.chan_id_on_b);
    let conn_key = st.channels@[ck].connection_hops@[0]@;
    client_status(st.clients@[st.connections@[conn_key].client_id@], st.host_timestamp)
}

/// Read-only validation of a `CloseConfirm` against the host state: checks
/// exactly the `chan_close_confirm_ok` conditions and requires the host
/// verifier's verdict on the proof of chain A's closed channel end.
/// Checking proof bytes against the stored consensus root is the
/// light-client verifier's work, a host collaborator outside this core;
/// `chan_proof_verified` carries its verdict for `msg.proof_chan_end_on_a`
/// checked against the channel end `expected_chan_end_on_a` builds.
pub fn validate(ctx_b: &HostState, msg: &MsgChannelCloseConfirm, chan_proof_verified: bool) -> (r:
    Result<(), ContextError>)
    requires
        ctx_b.well_formed(),
    ensures
        r is Ok <==> chan_close_confirm_ok(*ctx_b, msg@) && chan_proof_verified,
        ({
            let ck = port_channel_key(msg.port_id_on_b@, msg.chan_id_on_b@);
            close_confirm_channel_checks(*ctx_b, msg@)
                && ctx_b.channels@[ck].counterparty.channel_id is None
        }) ==> r == Err::<(), ContextError>(
            ContextError::Channel(ChannelError::MissingCounterparty),
        ),
        ({
            let ck = port_channel_key(msg.port_id_on_b@, msg.chan_id_on_b@);
            let conn_key = ctx_b.channels@[ck].connection_hops@[0]@;
            close_confirm_connection_checks(*ctx_b, msg@)
                && ctx_b.connections@[conn_key].counterparty.connection_id is None
        }) ==> r == Err::<(), ContextError>(
            ContextError::Channel(ChannelError::UndefinedConnectionCounterparty),
        ),
        ({
            let ck = port_channel_key(msg.port_id_on_b@, msg.chan_id_on_b@);
            let conn_key = ctx_b.channels@[ck].connection_hops@[0]@;
            &&& close_confirm_connection_checks(*ctx_b, msg@)
            &&& ctx_b.connections@[conn_key].counterparty.connection_id is Some
            &&& ctx_b.clients@.contains_key(ctx_b.connections@[conn_key].client_id@)
            &&& close_confirm_client_status(*ctx_b, msg@) != Status::Active
        }) ==> r == Err::<(), ContextError>(
            ContextError::Client(
                ClientError::ClientNotActive { status: close_confirm_client_status(*ctx_b, msg@) },
            ),
        ),
        (chan_close_confirm_ok(*ctx_b, msg@) && !chan_proof_verified) ==> r == Err::<
            (),
            ContextError,
        >(ContextError::Channel(ChannelError::VerifyChannelFailed)),
{
    match ctx_b.validate_message_signer(&msg.signer) {
        Ok(()) => (),
        Err(e) => {
            return Err(e);
        },
    }
    let chan_end_on_b = match ctx_b.channel_end(&msg.port_id_on_b, &msg.chan_id_on_b) {
        Ok(c) => c,
        Err(e) => {
            return Err(ContextError::Channel(e));
        },
    };
    match chan_end_on_b.verify_not_closed() {
        Ok(()) => (),
        Err(e) => {
            return Err(ContextError::Channel(e));
        },
    }
    proof {
        let ck = port_channel_key(msg.port_id_on_b@, msg.chan_id_on_b@);
        let stored = ctx_b.channels@[ck];
        assert(chan_end_on_b.connection_hops.deep_view() == stored.connection_hops.deep_view());
        assert(chan_end_on_b.connection_hops.deep_view().len()
            == chan_end_on_b.connection_hops@.len());
        assert(stored.connection_hops.deep_view().len() == stored.connection_hops@.len());
    }
    if chan_end_on_b.connection_hops.len() != 1 {
        return Err(ContextError::Connection(ConnectionError::ConnectionNotFound));
    }
    proof {
        let ck = port_channel_key(msg.port_id_on_b@, msg.chan_id_on_b@);
        let stored = ctx_b.channels@[ck];
        assert(chan_end_on_b.connection_hops.deep_view()[0]
            == chan_end_on_b.connection_hops@[0]@);
        assert(stored.connection_hops.deep_view()[0] == stored.connection_hops@[0]@);
    }
    match &chan_end_on_b.counterparty.channel_id {
        Some(_) => (),
        None => {
            return Err(ContextError::Channel(ChannelError::MissingCounterparty));
        },
    }
    let conn_end_on_b = match ctx_b.connection_end(&chan_end_on_b.connection_hops[0]) {
        Ok(c) => c,
        Err(e) => {
            return Err(ContextError::Connection(e));
        },
    };
    match conn_end_on_b.verify_state_matches(&ConnectionState::Open) {
        Ok(()) => (),
        Err(e) => {
            return Err(ContextError::Connection(e));
        },
    }
    match &conn_end_on_b.counterparty.connection_id {
        Some(_) => (),
        None => {
            return Err(ContextError::Channel(ChannelError::UndefinedConnectionCounterparty));
        },
    }
    let client_state_of_a_on_b = match ctx_b.client_record(&conn_end_on_b.client_id) {
        Ok(c) => c,
        Err(e) => {
            return Err(ContextError::Client(e));
        },
    };
    let host_timestamp = ctx_b.host_timestamp();
    let status = client_state_of_a_on_b.status(&host_timestamp);
    if !status.is_active() {
        return Err(ContextError::Client(ClientError::ClientNotActive { status }));
    }
    match client_state_of_a_on_b.validate_proof_height(&msg.proof_height_on_a) {
        Ok(()) => (),
        Err(e) => {
            return Err(ContextError::Client(e));
        },
    }
    match client_state_of_a_on_b.consensus_state_at(&msg.proof_height_on_a) {
        Some(_) => (),
        None => {
            return Err(ContextError::Client(ClientError::ConsensusStateNotFound));
        },
    }
    if !chan_proof_verified {
        return Err(ContextError::Channel(ChannelError::VerifyChannelFailed));
    }
    Ok(())
}

/// The channel end chain A must have stored when it closed its side: the
/// value the host's verifier checks `msg.proof_chan_end_on_a` against,
/// under `channelEnds/ports/{port_id_on_a}/channels/{chan_id_on_a}` and the
/// connection's counterparty prefix.
pub fn expected_chan_end_on_a(ctx_b: &HostState, msg: &MsgChannelCloseConfirm) -> (r: Result<
    ChannelEnd,
    ContextError,
>)
    requires
        ctx_b.well_formed(),
    ensures
        r is Ok <==> ({
            let ck = port_channel_key(msg.port_id_on_b@, msg.chan_id_on_b@);
            let conn_key = ctx_b.channels@[ck].connection_hops@[0]@;
            &&& ctx_b.channels@.contains_key(ck)
            &&& ctx_b.channels@[ck].connection_hops@.len() == 1
            &&& ctx_b.connections@.contains_key(conn_key)
            &&& ctx_b.connections@[conn_key].counterparty.connection_id is Some
        }),
        r matches Ok(c) ==> {
            let ck = port_channel_key(msg.port_id_on_b@, msg.chan_id_on_b@);
            let conn_key = ctx_b.channels@[ck].connection_hops@[0]@;
            &&& c.state == ChannelState::Closed
            &&& c.ordering == ctx_b.channels@[ck].ordering
            &&& c.counterparty.port_id@ == msg.port_id_on_b@
            &&& (c.counterparty.channel_id matches Some(cc) && cc@ == msg.chan_id_on_b@)
            &&& c.connection_hops.deep_view() == seq![
                ctx_b.connections@[conn_key].counterparty.connection_id->Some_0@,
            ]
            &&& c.version@ == ctx_b.channels@[ck].version@
        },
{
    let chan_end_on_b = match ctx_b.channel_end(&msg.port_id_on_b, &msg.chan_id_on_b) {
        Ok(c) => c,
        Err(e) => {
            return Err(ContextError::Channel(e));
        },
    };
    let ghost stored = ctx_b.channels@[port_channel_key(msg.port_id_on_b@, msg.chan_id_on_b@)];
    proof {
        assert(chan_end_on_b.connection_hops.deep_view() == stored.connection_hops.deep_view());
        assert(chan_end_on_b.connection_hops.deep_view().len()
            == chan_end_on_b.connection_hops@.len());
        assert(stored.connection_hops.deep_view().len() == stored.connection_hops@.len());
    }
    if chan_end_on_b.connection_hops.len() != 1 {
        return Err(ContextError::Connection(ConnectionError::ConnectionNotFound));
    }
    proof {
        assert(chan_end_on_b.connection_hops.deep_view()[0]
            == chan_end_on_b.connection_hops@[0]@);
        assert(stored.connection_hops.deep_view()[0] == stored.connection_hops@[0]@);
    }
    let conn_end_on_b = match ctx_b.connection_end(&chan_end_on_b.connection_hops[0]) {
        Ok(c) => c,
        Err(e) => {
            return Err(ContextError::Connection(e));
        },
    };
    let conn_id_on_a = match &conn_end_on_b.counterparty.connection_id {
        Some(c) => c,
        None => {
            return Err(ContextError::Channel(ChannelError::UndefinedConnectionCounterparty));
        },
    };
    let mut hops: Vec<ConnectionId> = Vec::new();
    hops.push(conn_id_on_a.clone());
    match ChannelEnd::new(
        ChannelState::Closed,
        chan_end_on_b.ordering,
        Counterparty::new(msg.port_id_on_b.clone(), Some(msg.chan_id_on_b.clone())),
        hops,
        chan_end_on_b.version,
    ) {
        Ok(c) => Ok(c),
        Err(e) => {
            proof {
                assert(false);
            }
            Err(ContextError::Channel(e))
        },
    }
}

/// Validation entry point: the host checks, then the module bound to the
/// port gets its veto.
pub fn chan_close_confirm_validate<M: Module>(
    ctx_b: &HostState,
    module: &M,
    msg: &MsgChannelCloseConfirm,
    chan_proof_verified: bool,
) -> (r: Result<(), ContextError>)
    requires
        ctx_b.well_formed(),
    ensures
        r is Ok ==> chan_close_confirm_ok(*ctx_b, msg@) && chan_proof_verified,
        !(chan_close_confirm_ok(*ctx_b, msg@) && chan_proof_verified) ==> r is Err,
{
    match validate(ctx_b, msg, chan_proof_verified) {
        Ok(()) => (),
        Err(e) => {
            return Err(e);
        },
    }
    match module.on_chan_close_confirm_validate(&msg.port_id_on_b, &msg.chan_id_on_b) {
        Ok(()) => Ok(()),
        Err(e) => Err(ContextError::Channel(e)),
    }
}

/// Execution of a `CloseConfirm` on chain B: the channel end moves to
/// `Closed`, a success line is logged, and a `Message` event and a
/// `CloseConfirmChannel` event are emitted, followed by whatever the module
/// adds. On failure nothing changes.
pub fn chan_close_confirm_execute<M: Module>(
    ctx_b: &mut HostState,
    module: &mut M,
    msg: MsgChannelCloseConfirm,
) -> (r: Result<(), ContextError>)
    requires
        old(ctx_b).well_formed(),
    ensures
        final(ctx_b).well_formed(),
        r is Err ==> *final(ctx_b) == *old(ctx_b),
        r is Ok ==> {
            let ck = port_channel_key(msg.port_id_on_b@, msg.chan_id_on_b@);
            let stored = old(ctx_b).channels@[ck];
            &&& old(ctx_b).channels@.contains_key(ck)
            &&& stored.counterparty.channel_id is Some
            &&& stored.connection_hops@.len() == 1
            &&& (exists|ce: ChannelEnd|
                ce@ == (ChannelEndView { state: ChannelState::Closed, ..stored@ })
                    && final(ctx_b).channels@ == old(ctx_b).channels@.insert(ck, ce))
            &&& final(ctx_b).events@.len() >= old(ctx_b).events@.len() + 2
            &&& final(ctx_b).events@.subrange(0, old(ctx_b).events@.len() as int)
                == old(ctx_b).events@
            &&& final(ctx_b).events@[old(ctx_b).events@.len() as int] == IbcEvent::Message(
                MessageEvent::Channel,
            )
            &&& (final(ctx_b).events@[old(ctx_b).events@.len() as int + 1] matches
                IbcEvent::CloseConfirmChannel {
                    port_id_on_b,
                    chan_id_on_b,
                    port_id_on_a,
                    chan_id_on_a,
                    conn_id_on_b,
                } && port_id_on_b@ == msg.port_id_on_b@ && chan_id_on_b@ == msg.chan_id_on_b@
                && port_id_on_a@ == stored.counterparty.port_id@ && chan_id_on_a@
                == stored.counterparty.channel_id->Some_0@ && conn_id_on_b@
                == stored.connection_hops@[0]@)
            &&& (forall|i: int|
                old(ctx_b).events@.len() + 2 <= i < final(ctx_b).events@.len()
                    ==> (#[trigger] final(ctx_b).events@[i]) is Module)
            &&& final(ctx_b).connections == old(ctx_b).connections
            &&& final(ctx_b).clients == old(ctx_b).clients
            &&& final(ctx_b).next_seq_send == old(ctx_b).next_seq_send
            &&& final(ctx_b).next_seq_recv == old(ctx_b).next_seq_recv
            &&& final(ctx_b).next_seq_ack == old(ctx_b).next_seq_ack
            &&& final(ctx_b).packet_commitments == old(ctx_b).packet_commitments
            &&& final(ctx_b).receipts == old(ctx_b).receipts
            &&& final(ctx_b).acks == old(ctx_b).acks
            &&& final(ctx_b).logs@.len() >= old(ctx_b).logs@.len() + 1
            &&& final(ctx_b).logs@.subrange(0, old(ctx_b).logs@.len() as int) == old(ctx_b).logs@
        },
{
    let extras = match module.on_chan_close_confirm_execute(&msg.port_id_on_b, &msg.chan_id_on_b) {
        Ok(extras) => extras,
        Err(e) => {
            return Err(ContextError::Channel(e));
        },
    };
    let chan_end_on_b = match ctx_b.channel_end(&msg.port_id_on_b, &msg.chan_id_on_b) {
        Ok(c) => c,
        Err(e) => {
            return Err(ContextError::Channel(e));
        },
    };
    let ghost stored = ctx_b.channels@[port_channel_key(msg.port_id_on_b@, msg.chan_id_on_b@)];
    proof {
        assert(chan_end_on_b.connection_hops.deep_view() == stored.connection_hops.deep_view());
        assert(chan_end_on_b.connection_hops.deep_view().len()
            == chan_end_on_b.connection_hops@.len());
        assert(stored.connection_hops.deep_view().len() == stored.connection_hops@.len());
    }
    let chan_id_on_a = match &chan_end_on_b.counterparty.channel_id {
        Some(c) => c.clone(),
        None => {
            return Err(ContextError::Channel(ChannelError::MissingCounterparty));
        },
    };
    if chan_end_on_b.connection_hops.len() != 1 {
        return Err(ContextError::Connection(ConnectionError::ConnectionNotFound));
    }
    proof {
        assert(chan_end_on_b.connection_hops.deep_view()[0]
            == chan_end_on_b.connection_hops@[0]@);
        assert(stored.connection_hops.deep_view()[0] == stored.connection_hops@[0]@);
    }
    let port_id_on_a = chan_end_on_b.counterparty.port_id.clone();
    let conn_id_on_b = chan_end_on_b.connection_hops[0].clone();

    // State change: close this end.
    let mut chan_end_closed = chan_end_on_b;
    chan_end_closed.set_state(ChannelState::Closed);
    let key = crate::path::port_channel_string(&msg.port_id_on_b, &msg.chan_id_on_b);
    proof {
        assert(chan_end_closed@ =~~= (ChannelEndView { state: ChannelState::Closed, ..stored@ }));
    }
    ctx_b.channels.insert(key, chan_end_closed);

    // Logs and events.
    ctx_b.log_message(String::from_str("success: channel close confirm"));
    ctx_b.emit_ibc_event(IbcEvent::Message(MessageEvent::Channel));
    ctx_b.emit_ibc_event(
        IbcEvent::CloseConfirmChannel {
            port_id_on_b: msg.port_id_on_b,
            chan_id_on_b: msg.chan_id_on_b,
            port_id_on_a,
            chan_id_on_a,
            conn_id_on_b,
        },
    );
    let ghost base_events = ctx_b.events@;
    let ghost base_logs = ctx_b.logs@;
    let ghost mid = *ctx_b;

    let mut extras = extras;
    let n = extras.events.len();
    let mut i: usize = 0;
    while i < n
        invariant
            i <= n,
            ctx_b.well_formed(),
            extras.events@.len() == n - i,
            ctx_b.events@.len() >= base_events.len(),
            ctx_b.events@.subrange(0, base_events.len() as int) == base_events,
            forall|k: int|
                base_events.len() <= k < ctx_b.events@.len() ==> (
                #[trigger] ctx_b.events@[k]) is Module,
            ctx_b.logs@ == base_logs,
            ctx_b.channels == mid.channels,
            ctx_b.connections == mid.connections,
            ctx_b.clients == mid.clients,
            ctx_b.next_seq_send == mid.next_seq_send,
            ctx_b.next_seq_recv == mid.next_seq_recv,
            ctx_b.next_seq_ack == mid.next_seq_ack,
            ctx_b.packet_commitments == mid.packet_commitments,
            ctx_b.receipts == mid.receipts,
            ctx_b.acks == mid.acks,
        decreases n - i,
    {
        let ghost pre = ctx_b.events@;
        let ev = extras.events.remove(0);
        ctx_b.emit_ibc_event(IbcEvent::Module(ev));
        proof {
            assert(ctx_b.events@.subrange(0, base_events.len() as int) =~= pre.subrange(
                0,
                base_events.len() as int,
            ));
        }
        i += 1;
    }
    let m = extras.log.len();
    let mut j: usize = 0;
    while j < m
        invariant
            j <= m,
            ctx_b.well_formed(),
            extras.log@.len() == m - j,
            ctx_b.events@.len() >= base_events.len(),
            ctx_b.events@.subrange(0, base_events.len() as int) == base_events,
            forall|k: int|
                base_events.len() <= k < ctx_b.events@.len() ==> (
                #[trigger] ctx_b.events@[k]) is Module,
            ctx_b.logs@.len() >= base_logs.len(),
            ctx_b.logs@.subrange(0, base_logs.len() as int) == base_logs,
            ctx_b.channels == mid.channels,
            ctx_b.connections == mid.connections,
            ctx_b.clients == mid.clients,
            ctx_b.next_seq_send == mid.next_seq_send,
            ctx_b.next_seq_recv == mid.next_seq_recv,
            ctx_b.next_seq_ack == mid.next_seq_ack,
            ctx_b.packet_commitments == mid.packet_commitments,
            ctx_b.receipts == mid.receipts,
            ctx_b.acks == mid.acks,
        decreases m - j,
    {
        let ghost pre_logs = ctx_b.logs@;
        let line = extras.log.remove(0);
        ctx_b.log_message(line);
        proof {
            assert(ctx_b.logs@.subrange(0, base_logs.len() as int) =~= pre_logs.subrange(
                0,
                base_logs.len() as int,
            ));
        }
        j += 1;
    }
    proof {
        let ck = port_channel_key(msg.port_id_on_b@, msg.chan_id_on_b@);
        let n0 = old(ctx_b).events@.len() as int;
        let l0 = old(ctx_b).logs@.len() as int;
        assert(chan_end_closed@ == (ChannelEndView {
            state: ChannelState::Closed,
            ..stored@
        }));
        assert(ctx_b.channels@ == old(ctx_b).channels@.insert(ck, chan_end_closed));
        assert(base_events =~= old(ctx_b).events@.push(IbcEvent::Message(MessageEvent::Channel)).push(
            ctx_b.events@[n0 + 1],
        )) by {
            assert(ctx_b.events@.subrange(0, base_events.len() as int)[n0 + 1] == ctx_b.events@[n0
                + 1]);
        }
        assert(ctx_b.events@[n0] == base_events[n0]) by {
            assert(ctx_b.events@.subrange(0, base_events.len() as int)[n0] == ctx_b.events@[n0]);
        }
        assert(ctx_b.events@[n0 + 1] == base_events[n0 + 1]) by {
            assert(ctx_b.events@.subrange(0, base_events.len() as int)[n0 + 1] == ctx_b.events@[n0
                + 1]);
        }
        assert(ctx_b.events@.subrange(0, n0) =~= old(ctx_b).events@) by {
            assert forall|i: int| 0 <= i < n0 implies ctx_b.events@[i] == old(
                ctx_b,
            ).events@[i] by {
                assert(ctx_b.events@.subrange(0, base_events.len() as int)[i] == ctx_b.events@[i]);
            }
        }
        assert(ctx_b.logs@.subrange(0, l0) =~= old(ctx_b).logs@) by {
            assert forall|i: int| 0 <= i < l0 implies ctx_b.logs@[i] == old(ctx_b).logs@[i] by {
                assert(ctx_b.logs@.subrange(0, base_logs.len() as int)[i] == ctx_b.logs@[i]);
            }
        }
    }
    Ok(())
}

} // verus!
