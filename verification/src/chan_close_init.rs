//! Protocol logic for the first step of the channel close handshake: chain
//! A closes its own end, provided the channel is not already closed and its
//! connection is open.

use vstd::prelude::*;

use crate::chan_msgs::MsgChannelCloseInit;
use crate::channel::{ChannelEnd, ChannelEndView, State as ChannelState};
use crate::client::{client_status, Status};
use crate::connection::State as ConnectionState;
use crate::errors::{ChannelError, ClientError, ConnectionError, ContextError};
use crate::events::{IbcEvent, MessageEvent};
use crate::host::HostState;
use crate::path::port_channel_key;
use crate::router::Module;

verus! {

/// When a `CloseInit` is accepted on chain A: the signer is well formed;
/// the channel exists, is not already `Closed` and has exactly one
/// connection hop; that connection is `Open`; and the client it rests on is
/// active.
pub open spec fn chan_close_init_ok(
    st: HostState,
    m: crate::chan_msgs::MsgChannelCloseInitView,
) -> bool {
    let ck = port_channel_key(m.port_id_on_a, m.chan_id_on_a);
    &&& m.signer.len() > 0
    &&& st.channels@.contains_key(ck)
    &&& st.channels@[ck].state != ChannelState::Closed
    &&& st.channels@[ck].connection_hops@.len() == 1
    &&& {
        let conn_key = st.channels@[ck].connection_hops@[0]@;
        &&& st.connections@.contains_key(conn_key)
        &&& st.connections@[conn_key].state == ConnectionState::Open
        &&& {
            let client_key = st.connections@[conn_key].client_id@;
            &&& st.clients@.contains_key(client_key)
            &&& client_status(st.clients@[client_key], st.host_timestamp) == Status::Active
        }
    }
}

/// Read-only validation of a `CloseInit` against the host state.
pub fn chan_close_init_validate<M: Module>(
    ctx_a: &HostState,
    module: &M,
    msg: &MsgChannelCloseInit,
) -> (r: Result<(), ContextError>)
    requires
        ctx_a.well_formed(),
    ensures
        r is Ok ==> chan_close_init_ok(*ctx_a, msg@),
        !chan_close_init_ok(*ctx_a, msg@) ==> r is Err,
{
    match ctx_a.validate_message_signer(&msg.signer) {
        Ok(()) => (),
        Err(e) => {
            return Err(e);
        },
    }
    let chan_end_on_a = match ctx_a.channel_end(&msg.port_id_on_a, &msg.chan_id_on_a) {
        Ok(c) => c,
        Err(e) => {
            return Err(ContextError::Channel(e));
        },
    };
    match chan_end_on_a.verify_not_closed() {
        Ok(()) => (),
        Err(e) => {
            return Err(ContextError::Channel(e));
        },
    }
    let ghost stored = ctx_a.channels@[port_channel_key(msg.port_id_on_a@, msg.chan_id_on_a@)];
    proof {
        assert(chan_end_on_a.connection_hops.deep_view() == stored.connection_hops.deep_view());
        assert(chan_end_on_a.connection_hops.deep_view().len()
            == chan_end_on_a.connection_hops@.len());
        assert(stored.connection_hops.deep_view().len() == stored.connection_hops@.len());
    }
    if chan_end_on_a.connection_hops.len() != 1 {
        return Err(ContextError::Connection(ConnectionError::ConnectionNotFound));
    }
    proof {
        assert(chan_end_on_a.connection_hops.deep_view()[0]
            == chan_end_on_a.connection_hops@[0]@);
        assert(stored.connection_hops.deep_view()[0] == stored.connection_hops@[0]@);
    }
    let conn_end_on_a = match ctx_a.connection_end(&chan_end_on_a.connection_hops[0]) {
        Ok(c) => c,
        Err(e) => {
            return Err(ContextError::Connection(e));
        },
    };
    match conn_end_on_a.verify_state_matches(&ConnectionState::Open) {
        Ok(()) => (),
        Err(e) => {
            return Err(ContextError::Connection(e));
        },
    }
    let client = match ctx_a.client_record(&conn_end_on_a.client_id) {
        Ok(c) => c,
        Err(e) => {
            return Err(ContextError::Client(e));
        },
    };
    let host_timestamp = ctx_a.host_timestamp();
    let status = client.status(&host_timestamp);
    if !status.is_active() {
        return Err(ContextError::Client(ClientError::ClientNotActive { status }));
    }
    match module.on_chan_close_init_validate(&msg.port_id_on_a, &msg.chan_id_on_a) {
        Ok(()) => Ok(()),
        Err(e) => Err(ContextError::Channel(e)),
    }
}

/// Execution of a `CloseInit` on chain A: the channel end moves to `Closed`
/// and a `Message` and a `CloseInitChannel` event are emitted, followed by
/// whatever the module adds. On failure nothing changes.
pub fn chan_close_init_execute<M: Module>(
    ctx_a: &mut HostState,
    module: &mut M,
    msg: MsgChannelCloseInit,
) -> (r: Result<(), ContextError>)
    requires
        old(ctx_a).well_formed(),
    ensures
        final(ctx_a).well_formed(),
        r is Err ==> *final(ctx_a) == *old(ctx_a),
        r is Ok ==> {
            let ck = port_channel_key(msg.port_id_on_a@, msg.chan_id_on_a@);
            let stored = old(ctx_a).channels@[ck];
            &&& old(ctx_a).channels@.contains_key(ck)
            &&& (exists|ce: ChannelEnd|
                ce@ == (ChannelEndView { state: ChannelState::Closed, ..stored@ })
                    && final(ctx_a).channels@ == old(ctx_a).channels@.insert(ck, ce))
            &&& final(ctx_a).connections == old(ctx_a).connections
            &&& final(ctx_a).clients == old(ctx_a).clients
            &&& final(ctx_a).packet_commitments == old(ctx_a).packet_commitments
            &&& final(ctx_a).receipts == old(ctx_a).receipts
            &&& final(ctx_a).acks == old(ctx_a).acks
            &&& final(ctx_a).events@.len() >= old(ctx_a).events@.len() + 2
            &&& final(ctx_a).events@.subrange(0, old(ctx_a).events@.len() as int)
                == old(ctx_a).events@
            &&& final(ctx_a).events@[old(ctx_a).events@.len() as int] == IbcEvent::Message(
                MessageEvent::Channel,
            )
            &&& (final(ctx_a).events@[old(ctx_a).events@.len() as int + 1] matches
                IbcEvent::CloseInitChannel { port_id_on_a, chan_id_on_a } && port_id_on_a@
                == msg.port_id_on_a@ && chan_id_on_a@ == msg.chan_id_on_a@)
            &&& (forall|i: int|
                old(ctx_a).events@.len() + 2 <= i < final(ctx_a).events@.len()
                    ==> (#[trigger] final(ctx_a).events@[i]) is Module)
        },
{
    let extras = match module.on_chan_close_init_execute(&msg.port_id_on_a, &msg.chan_id_on_a) {
        Ok(extras) => extras,
        Err(e) => {
            return Err(ContextError::Channel(e));
        },
    };
    let chan_end_on_a = match ctx_a.channel_end(&msg.port_id_on_a, &msg.chan_id_on_a) {
        Ok(c) => c,
        Err(e) => {
            return Err(ContextError::Channel(e));
        },
    };
    let ghost stored = ctx_a.channels@[port_channel_key(msg.port_id_on_a@, msg.chan_id_on_a@)];
    let mut chan_end_closed = chan_end_on_a;
    chan_end_closed.set_state(ChannelState::Closed);
    proof {
        assert(chan_end_closed@ =~~= (ChannelEndView { state: ChannelState::Closed, ..stored@ }));
    }
    let key = crate::path::port_channel_string(&msg.port_id_on_a, &msg.chan_id_on_a);
    ctx_a.channels.insert(key, chan_end_closed);
    ctx_a.emit_ibc_event(IbcEvent::Message(MessageEvent::Channel));
    ctx_a.emit_ibc_event(
        IbcEvent::CloseInitChannel {
            port_id_on_a: msg.port_id_on_a,
            chan_id_on_a: msg.chan_id_on_a,
        },
    );
    proof {
        let n0 = old(ctx_a).events@.len() as int;
        assert(ctx_a.events@.subrange(0, n0) =~= old(ctx_a).events@);
    }
    let ghost base_events = ctx_a.events@;
    let ghost mid = *ctx_a;
    let mut extras = extras;
    let n = extras.events.len();
    let mut i: usize = 0;
    while i < n
        invariant
            i <= n,
            ctx_a.well_formed(),
            extras.events@.len() == n - i,
            ctx_a.events@.len() >= base_events.len(),
            ctx_a.events@.subrange(0, base_events.len() as int) == base_events,
            forall|k: int|
                base_events.len() <= k < ctx_a.events@.len() ==> (
                #[trigger] ctx_a.events@[k]) is Module,
            ctx_a.logs == mid.logs,
            ctx_a.channels == mid.channels,
            ctx_a.connections == mid.connections,
            ctx_a.clients == mid.clients,
            ctx_a.next_seq_send == mid.next_seq_send,
            ctx_a.next_seq_recv == mid.next_seq_recv,
            ctx_a.next_seq_ack == mid.next_seq_ack,
            ctx_a.packet_commitments == mid.packet_commitments,
            ctx_a.receipts == mid.receipts,
            ctx_a.acks == mid.acks,
        decreases n - i,
    {
        let ghost pre = ctx_a.events@;
        let ev = extras.events.remove(0);
        ctx_a.emit_ibc_event(IbcEvent::Module(ev));
        proof {
            assert(ctx_a.events@.subrange(0, base_events.len() as int) =~= pre.subrange(
                0,
                base_events.len() as int,
            ));
        }
        i += 1;
    }
    proof {
        let n0 = old(ctx_a).events@.len() as int;
        assert forall|k: int| 0 <= k < base_events.len() implies ctx_a.events@[k]
            == base_events[k] by {
            assert(ctx_a.events@.subrange(0, base_events.len() as int)[k] == ctx_a.events@[k]);
        }
        assert(ctx_a.events@.subrange(0, n0) =~= old(ctx_a).events@) by {
            assert forall|k: int| 0 <= k < n0 implies ctx_a.events@[k] == old(
                ctx_a,
            ).events@[k] by {
                assert(ctx_a.events@.subrange(0, base_events.len() as int)[k]
                    == ctx_a.events@[k]);
                assert(base_events.subrange(0, n0)[k] == base_events[k]);
            }
        }
        assert(ctx_a.events@[n0] == base_events[n0]);
        assert(ctx_a.events@[n0 + 1] == base_events[n0 + 1]);
    }
    Ok(())
}

} // verus!
