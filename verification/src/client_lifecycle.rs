//! Light-client lifecycle handlers: creation, update from a verified
//! header, and freezing on misbehaviour. Header signature verification
//! itself is the host's consensus verifier, a collaborator outside this
//! core; the handlers take the header's verified content as plain values.

use vstd::prelude::*;

use crate::client::{client_status, ClientRecord, ConsensusStateRecord, Status};
use crate::commitment::CommitmentRoot;
use crate::errors::{ClientError, ContextError};
use crate::events::{IbcEvent, MessageEvent};
use crate::height::Height;
use crate::host::HostState;
use crate::identifier::ClientId;
use crate::path::{height_key, height_key_string};
use crate::store::Store;
use crate::timestamp::Timestamp;

verus! {

/// When a client is created: the signer is well formed, the identifier is
/// valid, not taken, and the initial consensus state's height is well
/// formed.
pub open spec fn create_client_handler_ok(
    st: HostState,
    client_id: ClientId,
    latest_height: Height,
    signer: Seq<char>,
) -> bool {
    &&& signer.len() > 0
    &&& !st.clients@.contains_key(client_id@)
    &&& latest_height.well_formed()
}

/// Creates an on-chain client from an initial, already-decoded consensus
/// state: stores the record with that one consensus state at its latest
/// height.
pub fn create_client(
    ctx: &mut HostState,
    client_id: ClientId,
    latest_height: Height,
    trusting_period_nanos: u64,
    consensus_timestamp: Timestamp,
    root: CommitmentRoot,
    signer: crate::signer::Signer,
) -> (r: Result<(), ContextError>)
    requires
        old(ctx).well_formed(),
    ensures
        final(ctx).well_formed(),
        r is Ok <==> create_client_handler_ok(*old(ctx), client_id, latest_height, signer@),
        r is Err ==> *final(ctx) == *old(ctx),
        r is Ok ==> {
            &&& (exists|rec: ClientRecord|
                {
                    &&& rec.latest_height == latest_height
                    &&& rec.frozen_height is None
                    &&& rec.trusting_period_nanos == trusting_period_nanos
                    &&& rec.latest_timestamp == consensus_timestamp
                    &&& rec.consensus_states@ == Map::<Seq<char>, ConsensusStateRecord>::empty()
                        .insert(height_key(latest_height), rec.consensus_states@[height_key(latest_height)])
                    &&& rec.consensus_states@[height_key(latest_height)].timestamp
                        == consensus_timestamp
                    &&& rec.consensus_states@[height_key(latest_height)].root@ == root@
                    &&& final(ctx).clients@ == old(ctx).clients@.insert(client_id@, rec)
                })
            &&& final(ctx).connections == old(ctx).connections
            &&& final(ctx).channels == old(ctx).channels
            &&& final(ctx).events@.len() == old(ctx).events@.len() + 2
            &&& final(ctx).events@.subrange(0, old(ctx).events@.len() as int)
                == old(ctx).events@
            &&& final(ctx).events@[old(ctx).events@.len() as int] == IbcEvent::Message(
                MessageEvent::Client,
            )
            &&& (final(ctx).events@[old(ctx).events@.len() as int + 1] matches
                IbcEvent::CreateClient { client_id: cid, consensus_height } && cid@ == client_id@
                && consensus_height == latest_height)
        },
{
    match ctx.validate_message_signer(&signer) {
        Ok(()) => (),
        Err(e) => {
            return Err(e);
        },
    }
    let key = client_id.clone_string();
    if ctx.clients.contains_key(&key) {
        return Err(ContextError::Client(ClientError::ClientNotFound));
    }
    if latest_height.revision_height() == 0 {
        return Err(ContextError::Client(ClientError::InvalidHeight));
    }
    let mut consensus_states: Store<ConsensusStateRecord> = Store::new();
    consensus_states.insert(
        height_key_string(&latest_height),
        ConsensusStateRecord { timestamp: consensus_timestamp, root },
    );
    let record = ClientRecord {
        latest_height,
        frozen_height: None,
        trusting_period_nanos,
        latest_timestamp: consensus_timestamp,
        consensus_states,
    };
    ctx.clients.insert(key, record);
    ctx.emit_ibc_event(IbcEvent::Message(MessageEvent::Client));
    ctx.emit_ibc_event(IbcEvent::CreateClient { client_id, consensus_height: latest_height });
    proof {
        let n0 = old(ctx).events@.len() as int;
        assert(ctx.events@.subrange(0, n0) =~= old(ctx).events@);
    }
    Ok(())
}

/// When an update is accepted: the signer is well formed, the client exists
/// and is active, the header's height is well formed, and no conflicting
/// consensus state is already stored at that height.
pub open spec fn update_client_ok(
    st: HostState,
    client_id: ClientId,
    header_height: Height,
    header_timestamp: Timestamp,
    root_bytes: Seq<u8>,
    signer: Seq<char>,
) -> bool {
    &&& signer.len() > 0
    &&& st.clients@.contains_key(client_id@)
    &&& client_status(st.clients@[client_id@], st.host_timestamp) == Status::Active
    &&& header_height.well_formed()
    &&& {
        let hk = height_key(header_height);
        let states = st.clients@[client_id@].consensus_states@;
        states.contains_key(hk) ==> (states[hk].timestamp == header_timestamp && states[hk].root@
            == root_bytes)
    }
}

/// Updates a client from a header the host's verifier accepted: writes the
/// consensus state at the header's height and advances the latest height if
/// the header is newer. Consensus states are immutable: a conflicting write
/// at an existing height is rejected, for the misbehaviour flow to handle.
pub fn update_client(
    ctx: &mut HostState,
    client_id: ClientId,
    header_height: Height,
    header_timestamp: Timestamp,
    root: CommitmentRoot,
    signer: crate::signer::Signer,
) -> (r: Result<(), ContextError>)
    requires
        old(ctx).well_formed(),
    ensures
        final(ctx).well_formed(),
        r is Ok <==> update_client_ok(
            *old(ctx),
            client_id,
            header_height,
            header_timestamp,
            root@,
            signer@,
        ),
        r is Err ==> *final(ctx) == *old(ctx),
        r is Ok ==> {
            let stored = old(ctx).clients@[client_id@];
            &&& (exists|rec: ClientRecord|
                {
                    &&& rec.latest_height == (if stored.latest_height.spec_lt(header_height) {
                        header_height
                    } else {
                        stored.latest_height
                    })
                    &&& rec.latest_timestamp == (if stored.latest_height.spec_lt(header_height) {
                        header_timestamp
                    } else {
                        stored.latest_timestamp
                    })
                    &&& rec.frozen_height == stored.frozen_height
                    &&& rec.trusting_period_nanos == stored.trusting_period_nanos
                    &&& rec.consensus_states@ == stored.consensus_states@.insert(
                        height_key(header_height),
                        rec.consensus_states@[height_key(header_height)],
                    )
                    &&& rec.consensus_states@[height_key(header_height)].timestamp
                        == header_timestamp
                    &&& rec.consensus_states@[height_key(header_height)].root@ == root@
                    &&& final(ctx).clients@ == old(ctx).clients@.insert(client_id@, rec)
                })
            &&& final(ctx).connections == old(ctx).connections
            &&& final(ctx).channels == old(ctx).channels
            &&& final(ctx).events@.len() == old(ctx).events@.len() + 2
            &&& final(ctx).events@.subrange(0, old(ctx).events@.len() as int)
                == old(ctx).events@
            &&& final(ctx).events@[old(ctx).events@.len() as int] == IbcEvent::Message(
                MessageEvent::Client,
            )
            &&& (final(ctx).events@[old(ctx).events@.len() as int + 1] matches
                IbcEvent::UpdateClient { client_id: cid, consensus_height } && cid@ == client_id@
                && consensus_height == header_height)
        },
{
    match ctx.validate_message_signer(&signer) {
        Ok(()) => (),
        Err(e) => {
            return Err(e);
        },
    }
    let key = client_id.clone_string();
    let record = match ctx.clients.get(&key) {
        Some(c) => c,
        None => {
            return Err(ContextError::Client(ClientError::ClientNotFound));
        },
    };
    let host_timestamp = ctx.host_timestamp();
    let status = record.status(&host_timestamp);
    if !status.is_active() {
        return Err(ContextError::Client(ClientError::ClientNotActive { status }));
    }
    if header_height.revision_height() == 0 {
        return Err(ContextError::Client(ClientError::InvalidHeight));
    }
    // Consensus states are immutable once written.
    match record.consensus_state_at(&header_height) {
        Some(existing) => {
            if !(existing.timestamp.nanoseconds() == header_timestamp.nanoseconds()
                && crate::commitment::bytes_equal(
                existing.root.as_bytes(),
                root.as_bytes(),
            )) {
                return Err(ContextError::Client(ClientError::HeaderVerificationFailure));
            }
        },
        None => (),
    }
    let mut record = match ctx.clients.take(&key) {
        Some(c) => c,
        None => {
            proof {
                assert(false);
            }
            return Err(ContextError::Client(ClientError::ClientNotFound));
        },
    };
    record.consensus_states.insert(
        height_key_string(&header_height),
        ConsensusStateRecord { timestamp: header_timestamp, root },
    );
    if record.latest_height.lt(&header_height) {
        record.latest_height = header_height;
        record.latest_timestamp = header_timestamp;
    }
    let key = client_id.clone_string();
    proof {
        assert(old(ctx).clients@.remove(client_id@).insert(client_id@, record) =~= old(
            ctx,
        ).clients@.insert(client_id@, record));
    }
    ctx.clients.insert(key, record);
    ctx.emit_ibc_event(IbcEvent::Message(MessageEvent::Client));
    ctx.emit_ibc_event(IbcEvent::UpdateClient { client_id, consensus_height: header_height });
    proof {
        let n0 = old(ctx).events@.len() as int;
        assert(ctx.events@.subrange(0, n0) =~= old(ctx).events@);
    }
    Ok(())
}

/// Freezes a client after the host's verifier established misbehaviour: all
/// further proof verification through it is rejected.
pub fn update_client_on_misbehaviour(
    ctx: &mut HostState,
    client_id: ClientId,
    frozen_height: Height,
    signer: crate::signer::Signer,
) -> (r: Result<(), ContextError>)
    requires
        old(ctx).well_formed(),
    ensures
        final(ctx).well_formed(),
        r is Ok <==> (signer@.len() > 0 && old(ctx).clients@.contains_key(client_id@)),
        r is Err ==> *final(ctx) == *old(ctx),
        r is Ok ==> {
            let stored = old(ctx).clients@[client_id@];
            &&& (exists|rec: ClientRecord|
                {
                    &&& rec.frozen_height == Some(frozen_height)
                    &&& rec.latest_height == stored.latest_height
                    &&& rec.latest_timestamp == stored.latest_timestamp
                    &&& rec.trusting_period_nanos == stored.trusting_period_nanos
                    &&& rec.consensus_states@ == stored.consensus_states@
                    &&& final(ctx).clients@ == old(ctx).clients@.insert(client_id@, rec)
                    &&& client_status(rec, final(ctx).host_timestamp) == Status::Frozen
                })
            &&& final(ctx).connections == old(ctx).connections
            &&& final(ctx).channels == old(ctx).channels
            &&& final(ctx).events@.len() == old(ctx).events@.len() + 2
            &&& final(ctx).events@.subrange(0, old(ctx).events@.len() as int)
                == old(ctx).events@
            &&& final(ctx).events@[old(ctx).events@.len() as int] == IbcEvent::Message(
                MessageEvent::Client,
            )
            &&& (final(ctx).events@[old(ctx).events@.len() as int + 1] matches
                IbcEvent::ClientMisbehaviour { client_id: cid } && cid@ == client_id@)
        },
{
    match ctx.validate_message_signer(&signer) {
        Ok(()) => (),
        Err(e) => {
            return Err(e);
        },
    }
    let key = client_id.clone_string();
    let mut record = match ctx.clients.take(&key) {
        Some(c) => c,
        None => {
            return Err(ContextError::Client(ClientError::ClientNotFound));
        },
    };
    record.frozen_height = Some(frozen_height);
    let key = client_id.clone_string();
    proof {
        assert(old(ctx).clients@.remove(client_id@).insert(client_id@, record) =~= old(
            ctx,
        ).clients@.insert(client_id@, record));
    }
    ctx.clients.insert(key, record);
    proof {
        assert(client_status(record, ctx.host_timestamp) == Status::Frozen);
        assert(ctx.clients@ == old(ctx).clients@.insert(client_id@, record));
    }
    ctx.emit_ibc_event(IbcEvent::Message(MessageEvent::Client));
    ctx.emit_ibc_event(IbcEvent::ClientMisbehaviour { client_id });
    proof {
        let n0 = old(ctx).events@.len() as int;
        assert(ctx.events@.subrange(0, n0) =~= old(ctx).events@);
    }
    Ok(())
}

/// Read-only validation of a client creation, fit for mempool admission.
pub fn create_client_validate(
    ctx: &HostState,
    client_id: &ClientId,
    latest_height: &Height,
    signer: &crate::signer::Signer,
) -> (r: Result<(), ContextError>)
    requires
        ctx.well_formed(),
    ensures
        r is Ok <==> create_client_handler_ok(*ctx, *client_id, *latest_height, signer@),
{
    match ctx.validate_message_signer(signer) {
        Ok(()) => (),
        Err(e) => {
            return Err(e);
        },
    }
    let key = client_id.clone_string();
    if ctx.clients.contains_key(&key) {
        return Err(ContextError::Client(ClientError::ClientNotFound));
    }
    if latest_height.revision_height() == 0 {
        return Err(ContextError::Client(ClientError::InvalidHeight));
    }
    Ok(())
}

/// Read-only validation of a client update, fit for mempool admission.
pub fn update_client_validate(
    ctx: &HostState,
    client_id: &ClientId,
    header_height: &Height,
    header_timestamp: &Timestamp,
    root: &CommitmentRoot,
    signer: &crate::signer::Signer,
) -> (r: Result<(), ContextError>)
    requires
        ctx.well_formed(),
    ensures
        r is Ok <==> update_client_ok(
            *ctx,
            *client_id,
            *header_height,
            *header_timestamp,
            root@,
            signer@,
        ),
{
    match ctx.validate_message_signer(signer) {
        Ok(()) => (),
        Err(e) => {
            return Err(e);
        },
    }
    let key = client_id.clone_string();
    let record = match ctx.clients.get(&key) {
        Some(c) => c,
        None => {
            return Err(ContextError::Client(ClientError::ClientNotFound));
        },
    };
    let host_timestamp = ctx.host_timestamp();
    let status = record.status(&host_timestamp);
    if !status.is_active() {
        return Err(ContextError::Client(ClientError::ClientNotActive { status }));
    }
    if header_height.revision_height() == 0 {
        return Err(ContextError::Client(ClientError::InvalidHeight));
    }
    match record.consensus_state_at(header_height) {
        Some(existing) => {
            if !(existing.timestamp.nanoseconds() == header_timestamp.nanoseconds()
                && crate::commitment::bytes_equal(
                existing.root.as_bytes(),
                root.as_bytes(),
            )) {
                return Err(ContextError::Client(ClientError::HeaderVerificationFailure));
            }
        },
        None => (),
    }
    Ok(())
}

} // verus!
