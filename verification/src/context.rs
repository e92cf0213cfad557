//! The capability surface a host offers the send-packet handlers, and the
//! block-delay computation used by the proof-delay checks.

use vstd::prelude::*;

use vstd::arithmetic::div_mod::lemma_div_is_ordered_by_denominator;

use crate::channel::ChannelEnd;
use crate::client::ClientRecord;
use crate::connection::ConnectionEnd;
use crate::errors::{ChannelError, ClientError, ConnectionError, PacketError};
use crate::events::IbcEvent;
use crate::height::Height;
use crate::host::HostState;
use crate::identifier::{ChannelId, ClientId, ConnectionId, PortId};
use crate::path::{packet_key, port_channel_key};
use crate::timestamp::Timestamp;

verus! {

/// What send-packet validation reads from the host.
pub trait SendPacketValidationContext: Sized {
    spec fn wf(&self) -> bool;

    spec fn spec_channels(&self) -> Map<Seq<char>, ChannelEnd>;

    spec fn spec_connections(&self) -> Map<Seq<char>, ConnectionEnd>;

    spec fn spec_clients(&self) -> Map<Seq<char>, ClientRecord>;

    spec fn spec_next_seq_send(&self) -> Map<Seq<char>, u64>;

    spec fn spec_host_height(&self) -> Height;

    spec fn spec_host_timestamp(&self) -> Timestamp;

    fn channel_end(&self, port_id: &PortId, channel_id: &ChannelId) -> (r: Result<
        ChannelEnd,
        ChannelError,
    >)
        requires
            self.wf(),
        ensures
            r is Ok <==> self.spec_channels().contains_key(
                port_channel_key(port_id@, channel_id@),
            ),
            r matches Ok(c) ==> c@ == self.spec_channels()[port_channel_key(
                port_id@,
                channel_id@,
            )]@,
            r is Err ==> r == Err::<ChannelEnd, ChannelError>(ChannelError::ChannelNotFound),
    ;

    fn connection_end(&self, connection_id: &ConnectionId) -> (r: Result<
        ConnectionEnd,
        ConnectionError,
    >)
        requires
            self.wf(),
        ensures
            r is Ok <==> self.spec_connections().contains_key(connection_id@),
            r matches Ok(c) ==> {
                let stored = self.spec_connections()[connection_id@];
                &&& c.state == stored.state
                &&& c.client_id@ == stored.client_id@
                &&& c.counterparty@ == stored.counterparty@
                &&& c.versions.deep_view() == stored.versions.deep_view()
                &&& c.delay_period_nanos == stored.delay_period_nanos
            },
            r is Err ==> r == Err::<ConnectionEnd, ConnectionError>(
                ConnectionError::ConnectionNotFound,
            ),
    ;

    fn client_record(&self, client_id: &ClientId) -> (r: Result<&ClientRecord, ClientError>)
        requires
            self.wf(),
        ensures
            r is Ok <==> self.spec_clients().contains_key(client_id@),
            r matches Ok(c) ==> *c == self.spec_clients()[client_id@] && c.well_formed(),
            r is Err ==> r == Err::<&ClientRecord, ClientError>(ClientError::ClientNotFound),
    ;

    fn get_next_sequence_send(&self, port_id: &PortId, channel_id: &ChannelId) -> (r: Result<
        u64,
        PacketError,
    >)
        requires
            self.wf(),
        ensures
            r is Ok <==> self.spec_next_seq_send().contains_key(
                port_channel_key(port_id@, channel_id@),
            ),
            r matches Ok(s) ==> s == self.spec_next_seq_send()[port_channel_key(
                port_id@,
                channel_id@,
            )],
            r is Err ==> r == Err::<u64, PacketError>(PacketError::MissingPacket),
    ;

    fn host_height(&self) -> (r: Height)
        ensures
            r == self.spec_host_height(),
    ;

    fn host_timestamp(&self) -> (r: Timestamp)
        ensures
            r == self.spec_host_timestamp(),
    ;
}

/// What send-packet execution additionally writes.
pub trait SendPacketExecutionContext: SendPacketValidationContext {
    spec fn spec_packet_commitments(&self) -> Map<Seq<char>, Vec<u8>>;

    spec fn spec_events(&self) -> Seq<IbcEvent>;

    /// Writing preserves well-formedness, the other maps, the clock and
    /// the events.
    fn store_next_sequence_send(&mut self, port_id: &PortId, channel_id: &ChannelId, seq: u64)
        requires
            old(self).wf(),
        ensures
            final(self).wf(),
            final(self).spec_next_seq_send() == old(self).spec_next_seq_send().insert(
                port_channel_key(port_id@, channel_id@),
                seq,
            ),
            final(self).spec_channels() == old(self).spec_channels(),
            final(self).spec_connections() == old(self).spec_connections(),
            final(self).spec_clients() == old(self).spec_clients(),
            final(self).spec_packet_commitments() == old(self).spec_packet_commitments(),
            final(self).spec_events() == old(self).spec_events(),
            final(self).spec_host_height() == old(self).spec_host_height(),
            final(self).spec_host_timestamp() == old(self).spec_host_timestamp(),
    ;

    fn store_packet_commitment(
        &mut self,
        port_id: &PortId,
        channel_id: &ChannelId,
        sequence: u64,
        commitment: Vec<u8>,
    )
        requires
            old(self).wf(),
        ensures
            final(self).wf(),
            final(self).spec_packet_commitments() == old(self).spec_packet_commitments().insert(
                packet_key(port_id@, channel_id@, sequence),
                commitment,
            ),
            final(self).spec_channels() == old(self).spec_channels(),
            final(self).spec_connections() == old(self).spec_connections(),
            final(self).spec_clients() == old(self).spec_clients(),
            final(self).spec_next_seq_send() == old(self).spec_next_seq_send(),
            final(self).spec_events() == old(self).spec_events(),
            final(self).spec_host_height() == old(self).spec_host_height(),
            final(self).spec_host_timestamp() == old(self).spec_host_timestamp(),
    ;

    fn emit_ibc_event(&mut self, event: IbcEvent)
        requires
            old(self).wf(),
        ensures
            final(self).wf(),
            final(self).spec_events() == old(self).spec_events().push(event),
            final(self).spec_channels() == old(self).spec_channels(),
            final(self).spec_connections() == old(self).spec_connections(),
            final(self).spec_clients() == old(self).spec_clients(),
            final(self).spec_next_seq_send() == old(self).spec_next_seq_send(),
            final(self).spec_packet_commitments() == old(self).spec_packet_commitments(),
            final(self).spec_host_height() == old(self).spec_host_height(),
            final(self).spec_host_timestamp() == old(self).spec_host_timestamp(),
    ;

    fn log_message(&mut self, message: String)
        requires
            old(self).wf(),
        ensures
            final(self).wf(),
            final(self).spec_events() == old(self).spec_events(),
            final(self).spec_channels() == old(self).spec_channels(),
            final(self).spec_connections() == old(self).spec_connections(),
            final(self).spec_clients() == old(self).spec_clients(),
            final(self).spec_next_seq_send() == old(self).spec_next_seq_send(),
            final(self).spec_packet_commitments() == old(self).spec_packet_commitments(),
            final(self).spec_host_height() == old(self).spec_host_height(),
            final(self).spec_host_timestamp() == old(self).spec_host_timestamp(),
    ;
}

impl SendPacketValidationContext for HostState {
    open spec fn wf(&self) -> bool {
        self.well_formed()
    }

    open spec fn spec_channels(&self) -> Map<Seq<char>, ChannelEnd> {
        self.channels@
    }

    open spec fn spec_connections(&self) -> Map<Seq<char>, ConnectionEnd> {
        self.connections@
    }

    open spec fn spec_clients(&self) -> Map<Seq<char>, ClientRecord> {
        self.clients@
    }

    open spec fn spec_next_seq_send(&self) -> Map<Seq<char>, u64> {
        self.next_seq_send@
    }

    open spec fn spec_host_height(&self) -> Height {
        self.host_height
    }

    open spec fn spec_host_timestamp(&self) -> Timestamp {
        self.host_timestamp
    }

    fn channel_end(&self, port_id: &PortId, channel_id: &ChannelId) -> Result<
        ChannelEnd,
        ChannelError,
    > {
        HostState::channel_end(self, port_id, channel_id)
    }

    fn connection_end(&self, connection_id: &ConnectionId) -> Result<
        ConnectionEnd,
        ConnectionError,
    > {
        HostState::connection_end(self, connection_id)
    }

    fn client_record(&self, client_id: &ClientId) -> Result<&ClientRecord, ClientError> {
        HostState::client_record(self, client_id)
    }

    fn get_next_sequence_send(&self, port_id: &PortId, channel_id: &ChannelId) -> Result<
        u64,
        PacketError,
    > {
        HostState::get_next_sequence_send(self, port_id, channel_id)
    }

    fn host_height(&self) -> Height {
        HostState::host_height(self)
    }

    fn host_timestamp(&self) -> Timestamp {
        HostState::host_timestamp(self)
    }
}

impl SendPacketExecutionContext for HostState {
    open spec fn spec_packet_commitments(&self) -> Map<Seq<char>, Vec<u8>> {
        self.packet_commitments@
    }

    open spec fn spec_events(&self) -> Seq<IbcEvent> {
        self.events@
    }

    fn store_next_sequence_send(&mut self, port_id: &PortId, channel_id: &ChannelId, seq: u64) {
        let key = crate::path::port_channel_string(port_id, channel_id);
        self.next_seq_send.insert(key, seq);
    }

    fn store_packet_commitment(
        &mut self,
        port_id: &PortId,
        channel_id: &ChannelId,
        sequence: u64,
        commitment: Vec<u8>,
    ) {
        let key = crate::path::packet_key_string(port_id, channel_id, sequence);
        self.packet_commitments.insert(key, commitment);
    }

    fn emit_ibc_event(&mut self, event: IbcEvent) {
        HostState::emit_ibc_event(self, event)
    }

    fn log_message(&mut self, message: String) {
        HostState::log_message(self, message)
    }
}

/// Integer ceiling division.
pub open spec fn ceil_div(d: nat, m: nat) -> nat
    recommends
        m > 0,
{
    if d % m == 0 {
        d / m
    } else {
        d / m + 1
    }
}

/// How many blocks must pass before a proof may be accepted, for a
/// connection delay: the delay period divided by the host's bound on the
/// block time, rounded up. A host with no block-time bound imposes no
/// block delay.
pub fn calculate_block_delay(delay_period_nanos: u64, max_expected_time_per_block_nanos: u64)
    -> (r: u64)
    ensures
        max_expected_time_per_block_nanos == 0 ==> r == 0,
        max_expected_time_per_block_nanos > 0 ==> r == ceil_div(
            delay_period_nanos as nat,
            max_expected_time_per_block_nanos as nat,
        ),
{
    if max_expected_time_per_block_nanos == 0 {
        return 0;
    }
    let q = delay_period_nanos / max_expected_time_per_block_nanos;
    if delay_period_nanos % max_expected_time_per_block_nanos == 0 {
        q
    } else {
        proof {
            // The remainder is nonzero, so the divisor is at least 2 and
            // the quotient leaves room for the rounding increment.
            lemma_div_is_ordered_by_denominator(
                delay_period_nanos as int,
                2,
                max_expected_time_per_block_nanos as int,
            );
        }
        q + 1
    }
}

} // verus!
