//! The four-step connection handshake. Each handler loads the local
//! connection end, validates proofs and state, and advances it exactly one
//! step along `Uninitialized -> Init -> TryOpen -> Open`; any other
//! transition is rejected.

use vstd::prelude::*;

use crate::client::{client_status, Status};
use crate::conn_msgs::{
    ConnectionMsg, MsgConnectionOpenAck, MsgConnectionOpenConfirm, MsgConnectionOpenInit,
    MsgConnectionOpenTry,
};
use crate::connection::{ConnectionEnd, Counterparty, State as ConnectionState, Version};
use crate::errors::{ClientError, ConnectionError, ContextError};
use crate::events::{IbcEvent, MessageEvent};
use crate::height::Height;
use crate::host::HostState;
use crate::identifier::{dec_str, ConnectionId};
use crate::path::height_key;
use crate::raw::RawVersionView;

verus! {

/// The version identifier this implementation supports.
pub open spec fn supported_version_identifier() -> Seq<char> {
    "1"@
}

/// `i` is the first index whose version this chain supports.
pub open spec fn is_first_compatible(vs: Seq<crate::connection::VersionView>, i: int) -> bool {
    &&& 0 <= i < vs.len()
    &&& vs[i].identifier == supported_version_identifier()
    &&& forall|j: int| 0 <= j < i ==> (#[trigger] vs[j]).identifier != supported_version_identifier()
}

/// Finds the first version of the list this chain supports.
fn pick_compatible_version(vs: &Vec<Version>) -> (r: Option<usize>)
    ensures
        r matches Some(i) ==> is_first_compatible(vs.deep_view(), i as int),
        r is None ==> !(exists|i: int| is_first_compatible(vs.deep_view(), i)),
{
    let supported = Version::compatible();
    let n = vs.len();
    let mut i: usize = 0;
    while i < n
        invariant
            i <= n,
            n == vs.deep_view().len(),
            supported@.identifier == supported_version_identifier(),
            forall|j: int|
                0 <= j < i ==> (#[trigger] vs.deep_view()[j]).identifier
                    != supported_version_identifier(),
        decreases n - i,
    {
        if vs[i].eq_identifier(&supported) {
            proof {
                assert(vs.deep_view()[i as int].identifier == vs@[i as int]@.identifier);
                assert(is_first_compatible(vs.deep_view(), i as int));
            }
            return Some(i);
        }
        proof {
            assert(vs.deep_view()[i as int].identifier == vs@[i as int]@.identifier);
        }
        i += 1;
    }
    proof {
        if exists|k: int| is_first_compatible(vs.deep_view(), k) {
            let k = choose|k: int| is_first_compatible(vs.deep_view(), k);
            assert(vs.deep_view()[k].identifier != supported_version_identifier());
        }
    }
    None
}

/// When `OpenInit` is accepted on chain A: the signer is well formed, the
/// named client exists and is active, any requested version is supported,
/// and a fresh connection identifier can still be allocated.
pub open spec fn conn_open_init_ok(st: HostState, m: MsgConnectionOpenInit) -> bool {
    &&& m.signer@.len() > 0
    &&& st.clients@.contains_key(m.client_id_on_a@)
    &&& client_status(st.clients@[m.client_id_on_a@], st.host_timestamp) == Status::Active
    &&& match m.version {
        Some(v) => v@.identifier == supported_version_identifier(),
        None => true,
    }
    &&& st.connection_counter < u64::MAX
}

/// Starts the handshake on chain A: allocates the next connection
/// identifier and stores a connection end in `Init` with no counterparty
/// connection yet.
pub fn conn_open_init(ctx_a: &mut HostState, msg: MsgConnectionOpenInit) -> (r: Result<
    (),
    ContextError,
>)
    requires
        old(ctx_a).well_formed(),
    ensures
        final(ctx_a).well_formed(),
        r is Ok <==> conn_open_init_ok(*old(ctx_a), msg),
        r is Err ==> *final(ctx_a) == *old(ctx_a),
        r is Ok ==> {
            let conn_key = "connection-"@ + dec_str(old(ctx_a).connection_counter as nat);
            &&& (exists|ce: ConnectionEnd|
                {
                    &&& ce.state == ConnectionState::Init
                    &&& ce.client_id@ == msg.client_id_on_a@
                    &&& ce.counterparty@ == msg.counterparty@
                    &&& ce.delay_period_nanos == msg.delay_period_nanos
                    &&& final(ctx_a).connections@ == old(ctx_a).connections@.insert(conn_key, ce)
                })
            &&& final(ctx_a).connection_counter == old(ctx_a).connection_counter + 1
            &&& final(ctx_a).channels == old(ctx_a).channels
            &&& final(ctx_a).clients == old(ctx_a).clients
            &&& final(ctx_a).packet_commitments == old(ctx_a).packet_commitments
            &&& final(ctx_a).events@.len() == old(ctx_a).events@.len() + 2
            &&& final(ctx_a).events@.subrange(0, old(ctx_a).events@.len() as int)
                == old(ctx_a).events@
            &&& final(ctx_a).events@[old(ctx_a).events@.len() as int] == IbcEvent::Message(
                MessageEvent::Connection,
            )
            &&& (final(ctx_a).events@[old(ctx_a).events@.len() as int + 1] matches
                IbcEvent::OpenInitConnection { conn_id_on_a, client_id_on_a } && conn_id_on_a@
                == conn_key && client_id_on_a@ == msg.client_id_on_a@)
        },
{
    match ctx_a.validate_message_signer(&msg.signer) {
        Ok(()) => (),
        Err(e) => {
            return Err(e);
        },
    }
    let client = match ctx_a.client_record(&msg.client_id_on_a) {
        Ok(c) => c,
        Err(e) => {
            return Err(ContextError::Client(e));
        },
    };
    let host_timestamp = ctx_a.host_timestamp();
    let status = client.status(&host_timestamp);
    if !status.is_active() {
        return Err(ContextError::Client(ClientError::ClientNotActive { status }));
    }
    let version = match msg.version {
        Some(v) => {
            if !v.eq_identifier(&Version::compatible()) {
                return Err(ContextError::Connection(ConnectionError::VersionsMismatch));
            }
            v
        },
        None => Version::compatible(),
    };
    if ctx_a.connection_counter == u64::MAX {
        return Err(ContextError::Connection(ConnectionError::ConnectionCounterOverflow));
    }
    let conn_id_on_a = ConnectionId::new(ctx_a.connection_counter);
    ctx_a.connection_counter = ctx_a.connection_counter + 1;
    let mut versions: Vec<Version> = Vec::new();
    versions.push(version);
    let conn_end = ConnectionEnd::new(
        ConnectionState::Init,
        msg.client_id_on_a.clone(),
        msg.counterparty,
        versions,
        msg.delay_period_nanos,
    );
    let key = conn_id_on_a.as_str().to_owned();
    ctx_a.connections.insert(key, conn_end);
    ctx_a.emit_ibc_event(IbcEvent::Message(MessageEvent::Connection));
    ctx_a.emit_ibc_event(
        IbcEvent::OpenInitConnection { conn_id_on_a, client_id_on_a: msg.client_id_on_a },
    );
    proof {
        let n0 = old(ctx_a).events@.len() as int;
        assert(ctx_a.events@.subrange(0, n0) =~= old(ctx_a).events@);
    }
    Ok(())
}

/// When `OpenTry` is accepted on chain B: the signer is well formed, some
/// offered version is supported, the named client exists and is active,
/// covers the proof height and has a consensus state there, and a fresh
/// connection identifier can still be allocated.
pub open spec fn conn_open_try_handler_ok(st: HostState, m: MsgConnectionOpenTry) -> bool {
    &&& m.signer@.len() > 0
    &&& (exists|i: int| is_first_compatible(m.versions_on_a.deep_view(), i))
    &&& st.clients@.contains_key(m.client_id_on_b@)
    &&& client_status(st.clients@[m.client_id_on_b@], st.host_timestamp) == Status::Active
    &&& m.proofs_height_on_a.spec_le(st.clients@[m.client_id_on_b@].latest_height)
    &&& st.clients@[m.client_id_on_b@].consensus_states@.contains_key(
        height_key(m.proofs_height_on_a),
    )
    &&& st.connection_counter < u64::MAX
}

/// Answers the handshake on chain B: verifies chain A's stored connection
/// end, client state and consensus state, picks the first supported
/// version, allocates the next connection identifier and stores a
/// connection end in `TryOpen`.
pub fn conn_open_try(
    ctx_b: &mut HostState,
    msg: MsgConnectionOpenTry,
    counterparty_proofs_verified: bool,
) -> (r: Result<(), ContextError>)
    requires
        old(ctx_b).well_formed(),
    ensures
        final(ctx_b).well_formed(),
        r is Ok <==> conn_open_try_handler_ok(*old(ctx_b), msg) && counterparty_proofs_verified,
        (conn_open_try_handler_ok(*old(ctx_b), msg) && !counterparty_proofs_verified) ==> r
            == Err::<(), ContextError>(ContextError::Connection(ConnectionError::InvalidProof)),
        r is Err ==> *final(ctx_b) == *old(ctx_b),
        r is Ok ==> {
            let conn_key = "connection-"@ + dec_str(old(ctx_b).connection_counter as nat);
            &&& (exists|ce: ConnectionEnd, i: int|
                {
                    &&& ce.state == ConnectionState::TryOpen
                    &&& ce.client_id@ == msg.client_id_on_b@
                    &&& ce.counterparty@ == msg.counterparty@
                    &&& ce.delay_period_nanos == msg.delay_period_nanos
                    &&& is_first_compatible(msg.versions_on_a.deep_view(), i)
                    &&& ce.versions.deep_view() == seq![msg.versions_on_a.deep_view()[i]]
                    &&& final(ctx_b).connections@ == old(ctx_b).connections@.insert(conn_key, ce)
                })
            &&& final(ctx_b).connection_counter == old(ctx_b).connection_counter + 1
            &&& final(ctx_b).channels == old(ctx_b).channels
            &&& final(ctx_b).clients == old(ctx_b).clients
            &&& final(ctx_b).events@.len() == old(ctx_b).events@.len() + 2
            &&& final(ctx_b).events@.subrange(0, old(ctx_b).events@.len() as int)
                == old(ctx_b).events@
            &&& final(ctx_b).events@[old(ctx_b).events@.len() as int] == IbcEvent::Message(
                MessageEvent::Connection,
            )
            &&& (final(ctx_b).events@[old(ctx_b).events@.len() as int + 1] matches
                IbcEvent::OpenTryConnection { conn_id_on_b, client_id_on_b } && conn_id_on_b@
                == conn_key && client_id_on_b@ == msg.client_id_on_b@)
        },
{
    match ctx_b.validate_message_signer(&msg.signer) {
        Ok(()) => (),
        Err(e) => {
            return Err(e);
        },
    }
    let picked_index = match pick_compatible_version(&msg.versions_on_a) {
        Some(i) => i,
        None => {
            return Err(ContextError::Connection(ConnectionError::VersionsMismatch));
        },
    };
    let client = match ctx_b.client_record(&msg.client_id_on_b) {
        Ok(c) => c,
        Err(e) => {
            return Err(ContextError::Client(e));
        },
    };
    let host_timestamp = ctx_b.host_timestamp();
    let status = client.status(&host_timestamp);
    if !status.is_active() {
        return Err(ContextError::Client(ClientError::ClientNotActive { status }));
    }
    match client.validate_proof_height(&msg.proofs_height_on_a) {
        Ok(()) => (),
        Err(e) => {
            return Err(ContextError::Client(e));
        },
    }
    match client.consensus_state_at(&msg.proofs_height_on_a) {
        Some(_) => (),
        None => {
            return Err(ContextError::Client(ClientError::ConsensusStateNotFound));
        },
    }
    if ctx_b.connection_counter == u64::MAX {
        return Err(ContextError::Connection(ConnectionError::ConnectionCounterOverflow));
    }
    // The proofs must show chain A stored its `Init` connection end, this
    // chain's client state, and a consensus state of this chain.
    if !counterparty_proofs_verified {
        return Err(ContextError::Connection(ConnectionError::InvalidProof));
    }
    let picked = msg.versions_on_a[picked_index].clone();
    let conn_id_on_b = ConnectionId::new(ctx_b.connection_counter);
    ctx_b.connection_counter = ctx_b.connection_counter + 1;
    let mut versions: Vec<Version> = Vec::new();
    versions.push(picked);
    proof {
        assert(versions.deep_view() =~= seq![
            msg.versions_on_a.deep_view()[picked_index as int],
        ]);
    }
    let conn_end = ConnectionEnd::new(
        ConnectionState::TryOpen,
        msg.client_id_on_b.clone(),
        msg.counterparty,
        versions,
        msg.delay_period_nanos,
    );
    let key = conn_id_on_b.as_str().to_owned();
    ctx_b.connections.insert(key, conn_end);
    ctx_b.emit_ibc_event(IbcEvent::Message(MessageEvent::Connection));
    ctx_b.emit_ibc_event(
        IbcEvent::OpenTryConnection { conn_id_on_b, client_id_on_b: msg.client_id_on_b },
    );
    proof {
        let n0 = old(ctx_b).events@.len() as int;
        assert(ctx_b.events@.subrange(0, n0) =~= old(ctx_b).events@);
    }
    Ok(())
}

/// When `OpenAck` is accepted on chain A: the signer is well formed; the
/// named connection exists and is still in `Init`, and the acknowledged
/// version is the one it offered; the client tracking chain B is active,
/// covers the proof height and has a consensus state there.
pub open spec fn conn_open_ack_ok(st: HostState, m: MsgConnectionOpenAck) -> bool {
    &&& m.signer@.len() > 0
    &&& st.connections@.contains_key(m.conn_id_on_a@)
    &&& st.connections@[m.conn_id_on_a@].state == ConnectionState::Init
    &&& (exists|i: int|
        0 <= i < st.connections@[m.conn_id_on_a@].versions.deep_view().len() && (
        #[trigger] st.connections@[m.conn_id_on_a@].versions.deep_view()[i]).identifier
            == m.version@.identifier)
    &&& {
        let client_key = st.connections@[m.conn_id_on_a@].client_id@;
        &&& st.clients@.contains_key(client_key)
        &&& client_status(st.clients@[client_key], st.host_timestamp) == Status::Active
        &&& m.proofs_height_on_b.spec_le(st.clients@[client_key].latest_height)
        &&& st.clients@[client_key].consensus_states@.contains_key(
            height_key(m.proofs_height_on_b),
        )
    }
}

/// Finishes the handshake on chain A: with proof that chain B's end is in
/// `TryOpen` and points back here, the local end moves `Init -> Open` and
/// records chain B's connection identifier and the agreed version.
pub fn conn_open_ack(
    ctx_a: &mut HostState,
    msg: MsgConnectionOpenAck,
    counterparty_proofs_verified: bool,
) -> (r: Result<(), ContextError>)
    requires
        old(ctx_a).well_formed(),
    ensures
        final(ctx_a).well_formed(),
        r is Ok <==> conn_open_ack_ok(*old(ctx_a), msg) && counterparty_proofs_verified,
        (conn_open_ack_ok(*old(ctx_a), msg) && !counterparty_proofs_verified) ==> r == Err::<
            (),
            ContextError,
        >(ContextError::Connection(ConnectionError::InvalidProof)),
        r is Err ==> *final(ctx_a) == *old(ctx_a),
        r is Ok ==> {
            let stored = old(ctx_a).connections@[msg.conn_id_on_a@];
            &&& (exists|ce: ConnectionEnd|
                {
                    &&& ce.state == ConnectionState::Open
                    &&& ce.client_id@ == stored.client_id@
                    &&& ce.counterparty.client_id@ == stored.counterparty.client_id@
                    &&& (ce.counterparty.connection_id matches Some(c) && c@ == msg.conn_id_on_b@)
                    &&& ce.counterparty.prefix@ == stored.counterparty.prefix@
                    &&& ce.versions.deep_view() == seq![msg.version@]
                    &&& ce.delay_period_nanos == stored.delay_period_nanos
                    &&& final(ctx_a).connections@ == old(ctx_a).connections@.insert(
                        msg.conn_id_on_a@,
                        ce,
                    )
                })
            &&& final(ctx_a).channels == old(ctx_a).channels
            &&& final(ctx_a).clients == old(ctx_a).clients
            &&& final(ctx_a).connection_counter == old(ctx_a).connection_counter
            &&& final(ctx_a).events@.len() == old(ctx_a).events@.len() + 2
            &&& final(ctx_a).events@.subrange(0, old(ctx_a).events@.len() as int)
                == old(ctx_a).events@
            &&& final(ctx_a).events@[old(ctx_a).events@.len() as int] == IbcEvent::Message(
                MessageEvent::Connection,
            )
            &&& (final(ctx_a).events@[old(ctx_a).events@.len() as int + 1] matches
                IbcEvent::OpenAckConnection { conn_id_on_a, conn_id_on_b } && conn_id_on_a@
                == msg.conn_id_on_a@ && conn_id_on_b@ == msg.conn_id_on_b@)
        },
{
    match ctx_a.validate_message_signer(&msg.signer) {
        Ok(()) => (),
        Err(e) => {
            return Err(e);
        },
    }
    let conn_end_on_a = match ctx_a.connection_end(&msg.conn_id_on_a) {
        Ok(c) => c,
        Err(e) => {
            return Err(ContextError::Connection(e));
        },
    };
    match conn_end_on_a.verify_state_matches(&ConnectionState::Init) {
        Ok(()) => (),
        Err(e) => {
            return Err(ContextError::Connection(e));
        },
    }
    let ghost stored = ctx_a.connections@[msg.conn_id_on_a@];
    // The acknowledged version must be one this end offered.
    let n = conn_end_on_a.versions.len();
    let mut i: usize = 0;
    let mut found = false;
    while i < n && !found
        invariant
            i <= n,
            n == conn_end_on_a.versions.deep_view().len(),
            conn_end_on_a.versions.deep_view() == stored.versions.deep_view(),
            !found ==> forall|j: int|
                0 <= j < i ==> (#[trigger] stored.versions.deep_view()[j]).identifier
                    != msg.version@.identifier,
            found ==> exists|j: int|
                0 <= j < stored.versions.deep_view().len() && (
                #[trigger] stored.versions.deep_view()[j]).identifier == msg.version@.identifier,
        decreases n - i,
    {
        proof {
            assert(conn_end_on_a.versions.deep_view()[i as int].identifier
                == conn_end_on_a.versions@[i as int]@.identifier);
        }
        if conn_end_on_a.versions[i].eq_identifier(&msg.version) {
            found = true;
        }
        i += 1;
    }
    if !found {
        return Err(ContextError::Connection(ConnectionError::VersionsMismatch));
    }
    let client = match ctx_a.client_record(&conn_end_on_a.client_id) {
        Ok(c) => c,
        Err(e) => {
            return Err(ContextError::Client(e));
        },
    };
    let host_timestamp = ctx_a.host_timestamp();
    let status = client.status(&host_timestamp);
    if !status.is_active() {
        return Err(ContextError::Client(ClientError::ClientNotActive { status }));
    }
    match client.validate_proof_height(&msg.proofs_height_on_b) {
        Ok(()) => (),
        Err(e) => {
            return Err(ContextError::Client(e));
        },
    }
    match client.consensus_state_at(&msg.proofs_height_on_b) {
        Some(_) => (),
        None => {
            return Err(ContextError::Client(ClientError::ConsensusStateNotFound));
        },
    }
    // The proofs must show chain B stored its `TryOpen` end pointing back
    // here, this chain's client state, and a consensus state of this chain.
    if !counterparty_proofs_verified {
        return Err(ContextError::Connection(ConnectionError::InvalidProof));
    }
    let mut versions: Vec<Version> = Vec::new();
    versions.push(msg.version);
    proof {
        assert(versions.deep_view() =~= seq![msg.version@]);
    }
    let updated = ConnectionEnd::new(
        ConnectionState::Open,
        conn_end_on_a.client_id,
        Counterparty::new(
            conn_end_on_a.counterparty.client_id,
            Some(msg.conn_id_on_b.clone()),
            conn_end_on_a.counterparty.prefix,
        ),
        versions,
        conn_end_on_a.delay_period_nanos,
    );
    let key = msg.conn_id_on_a.as_str().to_owned();
    ctx_a.connections.insert(key, updated);
    ctx_a.emit_ibc_event(IbcEvent::Message(MessageEvent::Connection));
    ctx_a.emit_ibc_event(
        IbcEvent::OpenAckConnection {
            conn_id_on_a: msg.conn_id_on_a,
            conn_id_on_b: msg.conn_id_on_b,
        },
    );
    proof {
        let n0 = old(ctx_a).events@.len() as int;
        assert(ctx_a.events@.subrange(0, n0) =~= old(ctx_a).events@);
    }
    Ok(())
}

/// When `OpenConfirm` is accepted on chain B: the signer is well formed;
/// the named connection exists and is still in `TryOpen`; the client
/// tracking chain A is active, covers the proof height and has a consensus
/// state there.
pub open spec fn conn_open_confirm_ok(st: HostState, m: MsgConnectionOpenConfirm) -> bool {
    &&& m.signer@.len() > 0
    &&& st.connections@.contains_key(m.conn_id_on_b@)
    &&& st.connections@[m.conn_id_on_b@].state == ConnectionState::TryOpen
    &&& {
        let client_key = st.connections@[m.conn_id_on_b@].client_id@;
        &&& st.clients@.contains_key(client_key)
        &&& client_status(st.clients@[client_key], st.host_timestamp) == Status::Active
        &&& m.proof_height_on_a.spec_le(st.clients@[client_key].latest_height)
        &&& st.clients@[client_key].consensus_states@.contains_key(
            height_key(m.proof_height_on_a),
        )
    }
}

/// Finishes the handshake on chain B: with proof that chain A's end is
/// `Open`, the local end moves `TryOpen -> Open`.
pub fn conn_open_confirm(
    ctx_b: &mut HostState,
    msg: MsgConnectionOpenConfirm,
    counterparty_proof_verified: bool,
) -> (r: Result<(), ContextError>)
    requires
        old(ctx_b).well_formed(),
    ensures
        final(ctx_b).well_formed(),
        r is Ok <==> conn_open_confirm_ok(*old(ctx_b), msg) && counterparty_proof_verified,
        (conn_open_confirm_ok(*old(ctx_b), msg) && !counterparty_proof_verified) ==> r == Err::<
            (),
            ContextError,
        >(ContextError::Connection(ConnectionError::InvalidProof)),
        r is Err ==> *final(ctx_b) == *old(ctx_b),
        r is Ok ==> {
            let stored = old(ctx_b).connections@[msg.conn_id_on_b@];
            &&& (exists|ce: ConnectionEnd|
                {
                    &&& ce.state == ConnectionState::Open
                    &&& ce.client_id@ == stored.client_id@
                    &&& ce.counterparty@ == stored.counterparty@
                    &&& ce.versions.deep_view() == stored.versions.deep_view()
                    &&& ce.delay_period_nanos == stored.delay_period_nanos
                    &&& final(ctx_b).connections@ == old(ctx_b).connections@.insert(
                        msg.conn_id_on_b@,
                        ce,
                    )
                })
            &&& final(ctx_b).channels == old(ctx_b).channels
            &&& final(ctx_b).clients == old(ctx_b).clients
            &&& final(ctx_b).connection_counter == old(ctx_b).connection_counter
            &&& final(ctx_b).events@.len() == old(ctx_b).events@.len() + 2
            &&& final(ctx_b).events@.subrange(0, old(ctx_b).events@.len() as int)
                == old(ctx_b).events@
            &&& final(ctx_b).events@[old(ctx_b).events@.len() as int] == IbcEvent::Message(
                MessageEvent::Connection,
            )
            &&& (final(ctx_b).events@[old(ctx_b).events@.len() as int + 1] matches
                IbcEvent::OpenConfirmConnection { conn_id_on_b } && conn_id_on_b@
                == msg.conn_id_on_b@)
        },
{
    match ctx_b.validate_message_signer(&msg.signer) {
        Ok(()) => (),
        Err(e) => {
            return Err(e);
        },
    }
    let conn_end_on_b = match ctx_b.connection_end(&msg.conn_id_on_b) {
        Ok(c) => c,
        Err(e) => {
            return Err(ContextError::Connection(e));
        },
    };
    match conn_end_on_b.verify_state_matches(&ConnectionState::TryOpen) {
        Ok(()) => (),
        Err(e) => {
            return Err(ContextError::Connection(e));
        },
    }
    let client = match ctx_b.client_record(&conn_end_on_b.client_id) {
        Ok(c) => c,
        Err(e) => {
            return Err(ContextError::Client(e));
        },
    };
    let host_timestamp = ctx_b.host_timestamp();
    let status = client.status(&host_timestamp);
    if !status.is_active() {
        return Err(ContextError::Client(ClientError::ClientNotActive { status }));
    }
    match client.validate_proof_height(&msg.proof_height_on_a) {
        Ok(()) => (),
        Err(e) => {
            return Err(ContextError::Client(e));
        },
    }
    match client.consensus_state_at(&msg.proof_height_on_a) {
        Some(_) => (),
        None => {
            return Err(ContextError::Client(ClientError::ConsensusStateNotFound));
        },
    }
    // The proof must show chain A's end is `Open`.
    if !counterparty_proof_verified {
        return Err(ContextError::Connection(ConnectionError::InvalidProof));
    }
    let updated = ConnectionEnd::new(
        ConnectionState::Open,
        conn_end_on_b.client_id,
        conn_end_on_b.counterparty,
        conn_end_on_b.versions,
        conn_end_on_b.delay_period_nanos,
    );
    let key = msg.conn_id_on_b.as_str().to_owned();
    ctx_b.connections.insert(key, updated);
    ctx_b.emit_ibc_event(IbcEvent::Message(MessageEvent::Connection));
    ctx_b.emit_ibc_event(IbcEvent::OpenConfirmConnection { conn_id_on_b: msg.conn_id_on_b });
    proof {
        let n0 = old(ctx_b).events@.len() as int;
        assert(ctx_b.events@.subrange(0, n0) =~= old(ctx_b).events@);
    }
    Ok(())
}

/// Dispatches a connection-handshake datagram to its handler: success is
/// decided exactly by the matching handler's acceptance condition, and a
/// failed message changes nothing.
/// `counterparty_proofs_verified` is the host verifier's verdict on the
/// message's membership proofs; `OpenInit` carries none and ignores it.
pub fn dispatch_connection_msg(
    ctx: &mut HostState,
    msg: ConnectionMsg,
    counterparty_proofs_verified: bool,
) -> (r: Result<(), ContextError>)
    requires
        old(ctx).well_formed(),
    ensures
        final(ctx).well_formed(),
        r is Err ==> *final(ctx) == *old(ctx),
        r is Ok <==> match msg {
            ConnectionMsg::OpenInit(m) => conn_open_init_ok(*old(ctx), m),
            ConnectionMsg::OpenTry(m) => conn_open_try_handler_ok(*old(ctx), m)
                && counterparty_proofs_verified,
            ConnectionMsg::OpenAck(m) => conn_open_ack_ok(*old(ctx), m)
                && counterparty_proofs_verified,
            ConnectionMsg::OpenConfirm(m) => conn_open_confirm_ok(*old(ctx), m)
                && counterparty_proofs_verified,
        },
{
    match msg {
        ConnectionMsg::OpenInit(m) => conn_open_init(ctx, m),
        ConnectionMsg::OpenTry(m) => conn_open_try(ctx, m, counterparty_proofs_verified),
        ConnectionMsg::OpenAck(m) => conn_open_ack(ctx, m, counterparty_proofs_verified),
        ConnectionMsg::OpenConfirm(m) => conn_open_confirm(ctx, m, counterparty_proofs_verified),
    }
}

/// Read-only validation of an `OpenInit`, fit for mempool admission.
pub fn conn_open_init_validate(ctx_a: &HostState, msg: &MsgConnectionOpenInit) -> (r: Result<
    (),
    ContextError,
>)
    requires
        ctx_a.well_formed(),
    ensures
        r is Ok <==> conn_open_init_ok(*ctx_a, *msg),
{
    match ctx_a.validate_message_signer(&msg.signer) {
        Ok(()) => (),
        Err(e) => {
            return Err(e);
        },
    }
    let client = match ctx_a.client_record(&msg.client_id_on_a) {
        Ok(c) => c,
        Err(e) => {
            return Err(ContextError::Client(e));
        },
    };
    let host_timestamp = ctx_a.host_timestamp();
    let status = client.status(&host_timestamp);
    if !status.is_active() {
        return Err(ContextError::Client(ClientError::ClientNotActive { status }));
    }
    match &msg.version {
        Some(v) => {
            if !v.eq_identifier(&Version::compatible()) {
                return Err(ContextError::Connection(ConnectionError::VersionsMismatch));
            }
        },
        None => (),
    }
    if ctx_a.connection_counter == u64::MAX {
        return Err(ContextError::Connection(ConnectionError::ConnectionCounterOverflow));
    }
    Ok(())
}

/// Read-only validation of an `OpenTry`, fit for mempool admission.
pub fn conn_open_try_validate(
    ctx_b: &HostState,
    msg: &MsgConnectionOpenTry,
    counterparty_proofs_verified: bool,
) -> (r: Result<(), ContextError>)
    requires
        ctx_b.well_formed(),
    ensures
        r is Ok <==> conn_open_try_handler_ok(*ctx_b, *msg) && counterparty_proofs_verified,
        (conn_open_try_handler_ok(*ctx_b, *msg) && !counterparty_proofs_verified) ==> r == Err::<
            (),
            ContextError,
        >(ContextError::Connection(ConnectionError::InvalidProof)),
{
    match ctx_b.validate_message_signer(&msg.signer) {
        Ok(()) => (),
        Err(e) => {
            return Err(e);
        },
    }
    match pick_compatible_version(&msg.versions_on_a) {
        Some(_) => (),
        None => {
            return Err(ContextError::Connection(ConnectionError::VersionsMismatch));
        },
    }
    let client = match ctx_b.client_record(&msg.client_id_on_b) {
        Ok(c) => c,
        Err(e) => {
            return Err(ContextError::Client(e));
        },
    };
    let host_timestamp = ctx_b.host_timestamp();
    let status = client.status(&host_timestamp);
    if !status.is_active() {
        return Err(ContextError::Client(ClientError::ClientNotActive { status }));
    }
    match client.validate_proof_height(&msg.proofs_height_on_a) {
        Ok(()) => (),
        Err(e) => {
            return Err(ContextError::Client(e));
        },
    }
    match client.consensus_state_at(&msg.proofs_height_on_a) {
        Some(_) => (),
        None => {
            return Err(ContextError::Client(ClientError::ConsensusStateNotFound));
        },
    }
    if ctx_b.connection_counter == u64::MAX {
        return Err(ContextError::Connection(ConnectionError::ConnectionCounterOverflow));
    }
    if !counterparty_proofs_verified {
        return Err(ContextError::Connection(ConnectionError::InvalidProof));
    }
    Ok(())
}

/// Read-only validation of an `OpenAck`, fit for mempool admission.
pub fn conn_open_ack_validate(
    ctx_a: &HostState,
    msg: &MsgConnectionOpenAck,
    counterparty_proofs_verified: bool,
) -> (r: Result<(), ContextError>)
    requires
        ctx_a.well_formed(),
    ensures
        r is Ok <==> conn_open_ack_ok(*ctx_a, *msg) && counterparty_proofs_verified,
        (conn_open_ack_ok(*ctx_a, *msg) && !counterparty_proofs_verified) ==> r == Err::<
            (),
            ContextError,
        >(ContextError::Connection(ConnectionError::InvalidProof)),
{
    match ctx_a.validate_message_signer(&msg.signer) {
        Ok(()) => (),
        Err(e) => {
            return Err(e);
        },
    }
    let conn_end_on_a = match ctx_a.connection_end(&msg.conn_id_on_a) {
        Ok(c) => c,
        Err(e) => {
            return Err(ContextError::Connection(e));
        },
    };
    match conn_end_on_a.verify_state_matches(&ConnectionState::Init) {
        Ok(()) => (),
        Err(e) => {
            return Err(ContextError::Connection(e));
        },
    }
    let ghost stored = ctx_a.connections@[msg.conn_id_on_a@];
    let n = conn_end_on_a.versions.len();
    let mut i: usize = 0;
    let mut found = false;
    while i < n && !found
        invariant
            i <= n,
            n == conn_end_on_a.versions.deep_view().len(),
            conn_end_on_a.versions.deep_view() == stored.versions.deep_view(),
            !found ==> forall|j: int|
                0 <= j < i ==> (#[trigger] stored.versions.deep_view()[j]).identifier
                    != msg.version@.identifier,
            found ==> exists|j: int|
                0 <= j < stored.versions.deep_view().len() && (
                #[trigger] stored.versions.deep_view()[j]).identifier == msg.version@.identifier,
        decreases n - i,
    {
        proof {
            assert(conn_end_on_a.versions.deep_view()[i as int].identifier
                == conn_end_on_a.versions@[i as int]@.identifier);
        }
        if conn_end_on_a.versions[i].eq_identifier(&msg.version) {
            found = true;
        }
        i += 1;
    }
    if !found {
        return Err(ContextError::Connection(ConnectionError::VersionsMismatch));
    }
    let client = match ctx_a.client_record(&conn_end_on_a.client_id) {
        Ok(c) => c,
        Err(e) => {
            return Err(ContextError::Client(e));
        },
    };
    let host_timestamp = ctx_a.host_timestamp();
    let status = client.status(&host_timestamp);
    if !status.is_active() {
        return Err(ContextError::Client(ClientError::ClientNotActive { status }));
    }
    match client.validate_proof_height(&msg.proofs_height_on_b) {
        Ok(()) => (),
        Err(e) => {
            return Err(ContextError::Client(e));
        },
    }
    match client.consensus_state_at(&msg.proofs_height_on_b) {
        Some(_) => (),
        None => {
            return Err(ContextError::Client(ClientError::ConsensusStateNotFound));
        },
    }
    if !counterparty_proofs_verified {
        return Err(ContextError::Connection(ConnectionError::InvalidProof));
    }
    Ok(())
}

/// Read-only validation of an `OpenConfirm`, fit for mempool admission.
pub fn conn_open_confirm_validate(
    ctx_b: &HostState,
    msg: &MsgConnectionOpenConfirm,
    counterparty_proof_verified: bool,
) -> (r: Result<(), ContextError>)
    requires
        ctx_b.well_formed(),
    ensures
        r is Ok <==> conn_open_confirm_ok(*ctx_b, *msg) && counterparty_proof_verified,
        (conn_open_confirm_ok(*ctx_b, *msg) && !counterparty_proof_verified) ==> r == Err::<
            (),
            ContextError,
        >(ContextError::Connection(ConnectionError::InvalidProof)),
{
    match ctx_b.validate_message_signer(&msg.signer) {
        Ok(()) => (),
        Err(e) => {
            return Err(e);
        },
    }
    let conn_end_on_b = match ctx_b.connection_end(&msg.conn_id_on_b) {
        Ok(c) => c,
        Err(e) => {
            return Err(ContextError::Connection(e));
        },
    };
    match conn_end_on_b.verify_state_matches(&ConnectionState::TryOpen) {
        Ok(()) => (),
        Err(e) => {
            return Err(ContextError::Connection(e));
        },
    }
    let client = match ctx_b.client_record(&conn_end_on_b.client_id) {
        Ok(c) => c,
        Err(e) => {
            return Err(ContextError::Client(e));
        },
    };
    let host_timestamp = ctx_b.host_timestamp();
    let status = client.status(&host_timestamp);
    if !status.is_active() {
        return Err(ContextError::Client(ClientError::ClientNotActive { status }));
    }
    match client.validate_proof_height(&msg.proof_height_on_a) {
        Ok(()) => (),
        Err(e) => {
            return Err(ContextError::Client(e));
        },
    }
    match client.consensus_state_at(&msg.proof_height_on_a) {
        Some(_) => (),
        None => {
            return Err(ContextError::Client(ClientError::ConsensusStateNotFound));
        },
    }
    if !counterparty_proof_verified {
        return Err(ContextError::Connection(ConnectionError::InvalidProof));
    }
    Ok(())
}

} // verus!
