//! The host state the handlers run against: a deterministic in-memory
//! key-value store per kind of protocol object, the host clock and height,
//! and the event and log sinks. Handlers are pure functions of
//! `(message, pre-state)` to `(post-state, events)`.

use vstd::prelude::*;

use crate::channel::ChannelEnd;
use crate::client::ClientRecord;
use crate::connection::ConnectionEnd;
use crate::errors::{ChannelError, ClientError, ConnectionError, PacketError};
use crate::events::IbcEvent;
use crate::height::Height;
use crate::identifier::{ChannelId, ClientId, ConnectionId, PortId};
use crate::path::{packet_key_string, port_channel_string};
use crate::store::Store;
use crate::timestamp::Timestamp;

verus! {

/// The block-height part of the delay check: within one revision the host
/// must be at least `block_delay` blocks past the proof height; a later
/// revision satisfies it outright.
pub open spec fn height_delay_passed(host: Height, proof: Height, block_delay: nat) -> bool {
    if host.revision_number > proof.revision_number {
        true
    } else if host.revision_number == proof.revision_number {
        host.revision_height >= proof.revision_height + block_delay
    } else {
        false
    }
}

/// The delay discipline of a connection: the host's clock must be at least
/// the delay period past the consensus state's timestamp, and the host's
/// height at least the derived block delay past the proof height.
pub open spec fn conn_delay_passed(
    st: HostState,
    proof_height: Height,
    delay_period_nanos: u64,
    consensus_timestamp: Timestamp,
) -> bool {
    let block_delay: nat = if st.max_expected_time_per_block_nanos == 0 {
        0
    } else {
        crate::context::ceil_div(
            delay_period_nanos as nat,
            st.max_expected_time_per_block_nanos as nat,
        )
    };
    &&& st.host_timestamp.nanos >= consensus_timestamp.nanos + delay_period_nanos
    &&& height_delay_passed(st.host_height, proof_height, block_delay)
}

/// Everything a chain keeps for the protocol, plus its clock and height.
pub struct HostState {
    pub host_height: Height,
    pub host_timestamp: Timestamp,
    /// The upper bound the host assumes on the time between two blocks.
    pub max_expected_time_per_block_nanos: u64,
    /// Client records keyed by client identifier.
    pub clients: Store<ClientRecord>,
    /// Connection ends keyed by connection identifier.
    pub connections: Store<ConnectionEnd>,
    /// Channel ends keyed by `ports/{port}/channels/{chan}`.
    pub channels: Store<ChannelEnd>,
    /// Send/receive/acknowledge counters keyed like channels.
    pub next_seq_send: Store<u64>,
    pub next_seq_recv: Store<u64>,
    pub next_seq_ack: Store<u64>,
    /// Packet commitments, receipts and acknowledgement commitments keyed
    /// by `ports/{port}/channels/{chan}/sequences/{seq}`.
    pub packet_commitments: Store<Vec<u8>>,
    pub receipts: Store<bool>,
    pub acks: Store<Vec<u8>>,
    pub events: Vec<IbcEvent>,
    pub logs: Vec<String>,
    /// How many clients, connections and channels this chain has
    /// allocated.
    pub client_counter: u64,
    pub connection_counter: u64,
    pub channel_counter: u64,
}

impl HostState {
    /// Every store keeps its keys distinct, and every client record is
    /// internally well formed.
    pub open spec fn well_formed(&self) -> bool {
        &&& self.clients.well_formed()
        &&& self.connections.well_formed()
        &&& self.channels.well_formed()
        &&& self.next_seq_send.well_formed()
        &&& self.next_seq_recv.well_formed()
        &&& self.next_seq_ack.well_formed()
        &&& self.packet_commitments.well_formed()
        &&& self.receipts.well_formed()
        &&& self.acks.well_formed()
        &&& forall|k: Seq<char>|
            self.clients@.contains_key(k) ==> (#[trigger] self.clients@[k]).well_formed()
    }

    /// An empty chain at the given height and time.
    pub fn new(
        host_height: Height,
        host_timestamp: Timestamp,
        max_expected_time_per_block_nanos: u64,
    ) -> (r: HostState)
        ensures
            r.well_formed(),
            r.host_height == host_height,
            r.host_timestamp == host_timestamp,
            r.max_expected_time_per_block_nanos == max_expected_time_per_block_nanos,
            r.clients@ == Map::<Seq<char>, ClientRecord>::empty(),
            r.connections@ == Map::<Seq<char>, ConnectionEnd>::empty(),
            r.channels@ == Map::<Seq<char>, ChannelEnd>::empty(),
            r.next_seq_send@ == Map::<Seq<char>, u64>::empty(),
            r.next_seq_recv@ == Map::<Seq<char>, u64>::empty(),
            r.next_seq_ack@ == Map::<Seq<char>, u64>::empty(),
            r.packet_commitments@ == Map::<Seq<char>, Vec<u8>>::empty(),
            r.receipts@ == Map::<Seq<char>, bool>::empty(),
            r.acks@ == Map::<Seq<char>, Vec<u8>>::empty(),
            r.events@.len() == 0,
            r.logs@.len() == 0,
            r.client_counter == 0,
            r.connection_counter == 0,
            r.channel_counter == 0,
    {
        HostState {
            host_height,
            host_timestamp,
            max_expected_time_per_block_nanos,
            clients: Store::new(),
            connections: Store::new(),
            channels: Store::new(),
            next_seq_send: Store::new(),
            next_seq_recv: Store::new(),
            next_seq_ack: Store::new(),
            packet_commitments: Store::new(),
            receipts: Store::new(),
            acks: Store::new(),
            events: Vec::new(),
            logs: Vec::new(),
            client_counter: 0,
            connection_counter: 0,
            channel_counter: 0,
        }
    }

    pub fn host_height(&self) -> (r: Height)
        ensures
            r == self.host_height,
    {
        self.host_height
    }

    pub fn host_timestamp(&self) -> (r: Timestamp)
        ensures
            r == self.host_timestamp,
    {
        self.host_timestamp
    }

    pub fn max_expected_time_per_block(&self) -> (r: u64)
        ensures
            r == self.max_expected_time_per_block_nanos,
    {
        self.max_expected_time_per_block_nanos
    }

    /// The client record stored for the identifier.
    pub fn client_record(&self, client_id: &ClientId) -> (r: Result<&ClientRecord, ClientError>)
        requires
            self.well_formed(),
        ensures
            r is Ok <==> self.clients@.contains_key(client_id@),
            r matches Ok(c) ==> *c == self.clients@[client_id@] && c.well_formed(),
            r is Err ==> r == Err::<&ClientRecord, ClientError>(ClientError::ClientNotFound),
    {
        let key = client_id.clone_string();
        match self.clients.get(&key) {
            Some(c) => Ok(c),
            None => Err(ClientError::ClientNotFound),
        }
    }

    /// The connection end stored for the identifier; a copy, as handlers
    /// modify it before storing it back.
    pub fn connection_end(&self, connection_id: &ConnectionId) -> (r: Result<
        ConnectionEnd,
        ConnectionError,
    >)
        requires
            self.well_formed(),
        ensures
            r is Ok <==> self.connections@.contains_key(connection_id@),
            r matches Ok(c) ==> {
                let stored = self.connections@[connection_id@];
                &&& c.state == stored.state
                &&& c.client_id@ == stored.client_id@
                &&& c.counterparty@ == stored.counterparty@
                &&& c.versions.deep_view() == stored.versions.deep_view()
                &&& c.delay_period_nanos == stored.delay_period_nanos
            },
            r is Err ==> r == Err::<ConnectionEnd, ConnectionError>(
                ConnectionError::ConnectionNotFound,
            ),
    {
        let key = connection_id.as_str().to_owned();
        match self.connections.get(&key) {
            Some(c) => Ok(c.clone()),
            None => Err(ConnectionError::ConnectionNotFound),
        }
    }

    /// The channel end stored for the port and channel; a copy.
    pub fn channel_end(&self, port_id: &PortId, channel_id: &ChannelId) -> (r: Result<
        ChannelEnd,
        ChannelError,
    >)
        requires
            self.well_formed(),
        ensures
            r is Ok <==> self.channels@.contains_key(
                crate::path::port_channel_key(port_id@, channel_id@),
            ),
            r matches Ok(c) ==> c@ == self.channels@[crate::path::port_channel_key(
                port_id@,
                channel_id@,
            )]@,
            r is Err ==> r == Err::<ChannelEnd, ChannelError>(ChannelError::ChannelNotFound),
    {
        let key = port_channel_string(port_id, channel_id);
        match self.channels.get(&key) {
            Some(c) => Ok(c.clone()),
            None => Err(ChannelError::ChannelNotFound),
        }
    }

    /// The send counter of a channel.
    pub fn get_next_sequence_send(&self, port_id: &PortId, channel_id: &ChannelId) -> (r: Result<
        u64,
        PacketError,
    >)
        requires
            self.well_formed(),
        ensures
            r is Ok <==> self.next_seq_send@.contains_key(
                crate::path::port_channel_key(port_id@, channel_id@),
            ),
            r matches Ok(s) ==> s == self.next_seq_send@[crate::path::port_channel_key(
                port_id@,
                channel_id@,
            )],
            r is Err ==> r == Err::<u64, PacketError>(PacketError::MissingPacket),
    {
        let key = port_channel_string(port_id, channel_id);
        match self.next_seq_send.get(&key) {
            Some(s) => Ok(*s),
            None => Err(PacketError::MissingPacket),
        }
    }

    /// The receive counter of a channel.
    pub fn get_next_sequence_recv(&self, port_id: &PortId, channel_id: &ChannelId) -> (r: Result<
        u64,
        PacketError,
    >)
        requires
            self.well_formed(),
        ensures
            r is Ok <==> self.next_seq_recv@.contains_key(
                crate::path::port_channel_key(port_id@, channel_id@),
            ),
            r matches Ok(s) ==> s == self.next_seq_recv@[crate::path::port_channel_key(
                port_id@,
                channel_id@,
            )],
            r is Err ==> r == Err::<u64, PacketError>(PacketError::MissingPacket),
    {
        let key = port_channel_string(port_id, channel_id);
        match self.next_seq_recv.get(&key) {
            Some(s) => Ok(*s),
            None => Err(PacketError::MissingPacket),
        }
    }

    /// The acknowledgement counter of a channel.
    pub fn get_next_sequence_ack(&self, port_id: &PortId, channel_id: &ChannelId) -> (r: Result<
        u64,
        PacketError,
    >)
        requires
            self.well_formed(),
        ensures
            r is Ok <==> self.next_seq_ack@.contains_key(
                crate::path::port_channel_key(port_id@, channel_id@),
            ),
            r matches Ok(s) ==> s == self.next_seq_ack@[crate::path::port_channel_key(
                port_id@,
                channel_id@,
            )],
            r is Err ==> r == Err::<u64, PacketError>(PacketError::MissingPacket),
    {
        let key = port_channel_string(port_id, channel_id);
        match self.next_seq_ack.get(&key) {
            Some(s) => Ok(*s),
            None => Err(PacketError::MissingPacket),
        }
    }

    /// The stored commitment of a sent packet, if any.
    pub fn get_packet_commitment(&self, port_id: &PortId, channel_id: &ChannelId, sequence: u64)
        -> (r: Option<&Vec<u8>>)
        requires
            self.well_formed(),
        ensures
            r is Some <==> self.packet_commitments@.contains_key(
                crate::path::packet_key(port_id@, channel_id@, sequence),
            ),
            r matches Some(c) ==> *c == self.packet_commitments@[crate::path::packet_key(
                port_id@,
                channel_id@,
                sequence,
            )],
    {
        let key = packet_key_string(port_id, channel_id, sequence);
        self.packet_commitments.get(&key)
    }

    /// Whether a receipt was written for the sequence.
    pub fn get_packet_receipt(&self, port_id: &PortId, channel_id: &ChannelId, sequence: u64)
        -> (r: bool)
        ensures
            r == self.receipts@.contains_key(
                crate::path::packet_key(port_id@, channel_id@, sequence),
            ),
    {
        let key = packet_key_string(port_id, channel_id, sequence);
        self.receipts.contains_key(&key)
    }

    /// The stored acknowledgement commitment, if any.
    pub fn get_packet_acknowledgement(
        &self,
        port_id: &PortId,
        channel_id: &ChannelId,
        sequence: u64,
    ) -> (r: Option<&Vec<u8>>)
        requires
            self.well_formed(),
        ensures
            r is Some <==> self.acks@.contains_key(
                crate::path::packet_key(port_id@, channel_id@, sequence),
            ),
            r matches Some(c) ==> *c == self.acks@[crate::path::packet_key(
                port_id@,
                channel_id@,
                sequence,
            )],
    {
        let key = packet_key_string(port_id, channel_id, sequence);
        self.acks.get(&key)
    }

    /// Both delay thresholds of a connection hold for a proof taken at
    /// `proof_height`, given the consensus state that was used.
    pub fn verify_conn_delay_passed(
        &self,
        proof_height: &Height,
        delay_period_nanos: u64,
        consensus_timestamp: &Timestamp,
    ) -> (r: Result<(), ConnectionError>)
        ensures
            r is Ok <==> conn_delay_passed(
                *self,
                *proof_height,
                delay_period_nanos,
                *consensus_timestamp,
            ),
            (self.host_timestamp.nanos < consensus_timestamp.nanos + delay_period_nanos) ==> r
                == Err::<(), ConnectionError>(ConnectionError::NotEnoughTimeElapsed),
            (self.host_timestamp.nanos >= consensus_timestamp.nanos + delay_period_nanos
                && !conn_delay_passed(
                *self,
                *proof_height,
                delay_period_nanos,
                *consensus_timestamp,
            )) ==> r == Err::<(), ConnectionError>(ConnectionError::NotEnoughBlocksElapsed),
    {
        if self.host_timestamp.nanos < consensus_timestamp.nanos || self.host_timestamp.nanos
            - consensus_timestamp.nanos < delay_period_nanos {
            return Err(ConnectionError::NotEnoughTimeElapsed);
        }
        let block_delay = crate::context::calculate_block_delay(
            delay_period_nanos,
            self.max_expected_time_per_block_nanos,
        );
        let height_ok: bool = if self.host_height.revision_number
            > proof_height.revision_number {
            true
        } else if self.host_height.revision_number == proof_height.revision_number {
            self.host_height.revision_height >= proof_height.revision_height
                && self.host_height.revision_height - proof_height.revision_height >= block_delay
        } else {
            false
        };
        if !height_ok {
            return Err(ConnectionError::NotEnoughBlocksElapsed);
        }
        Ok(())
    }

    /// Accepts a message signer: any nonempty account. What counts as a
    /// well-formed account beyond that is host policy.
    pub fn validate_message_signer(&self, signer: &crate::signer::Signer) -> (r: Result<
        (),
        crate::errors::ContextError,
    >)
        ensures
            r is Ok <==> signer@.len() > 0,
            r is Err ==> r == Err::<(), crate::errors::ContextError>(
                crate::errors::ContextError::Client(
                    ClientError::InvalidIdentifier(
                        crate::errors::IdentifierError::InvalidLength,
                    ),
                ),
            ),
    {
        if signer.as_str().unicode_len() == 0 {
            Err(
                crate::errors::ContextError::Client(
                    ClientError::InvalidIdentifier(crate::errors::IdentifierError::InvalidLength),
                ),
            )
        } else {
            Ok(())
        }
    }

    /// Appends an event.
    pub fn emit_ibc_event(&mut self, event: IbcEvent)
        ensures
            final(self).events@ == old(self).events@.push(event),
            final(self).logs == old(self).logs,
            final(self).host_height == old(self).host_height,
            final(self).host_timestamp == old(self).host_timestamp,
            final(self).max_expected_time_per_block_nanos == old(
                self,
            ).max_expected_time_per_block_nanos,
            final(self).clients == old(self).clients,
            final(self).connections == old(self).connections,
            final(self).channels == old(self).channels,
            final(self).next_seq_send == old(self).next_seq_send,
            final(self).next_seq_recv == old(self).next_seq_recv,
            final(self).next_seq_ack == old(self).next_seq_ack,
            final(self).packet_commitments == old(self).packet_commitments,
            final(self).receipts == old(self).receipts,
            final(self).acks == old(self).acks,
            final(self).client_counter == old(self).client_counter,
            final(self).connection_counter == old(self).connection_counter,
            final(self).channel_counter == old(self).channel_counter,
    {
        self.events.push(event);
    }

    /// Appends a log line.
    pub fn log_message(&mut self, message: String)
        ensures
            final(self).logs@ == old(self).logs@.push(message),
            final(self).events == old(self).events,
            final(self).host_height == old(self).host_height,
            final(self).host_timestamp == old(self).host_timestamp,
            final(self).max_expected_time_per_block_nanos == old(
                self,
            ).max_expected_time_per_block_nanos,
            final(self).clients == old(self).clients,
            final(self).connections == old(self).connections,
            final(self).channels == old(self).channels,
            final(self).next_seq_send == old(self).next_seq_send,
            final(self).next_seq_recv == old(self).next_seq_recv,
            final(self).next_seq_ack == old(self).next_seq_ack,
            final(self).packet_commitments == old(self).packet_commitments,
            final(self).receipts == old(self).receipts,
            final(self).acks == old(self).acks,
            final(self).client_counter == old(self).client_counter,
            final(self).connection_counter == old(self).connection_counter,
            final(self).channel_counter == old(self).channel_counter,
    {
        self.logs.push(message);
    }
}

} // verus!
