//! Channel and packet messages: the domain types, their validation from the
//! wire form, and the rendering back to the wire.

use vstd::prelude::*;

use crate::commitment::CommitmentProofBytes;
use crate::errors::{ChannelError, PacketError};
use crate::height::Height;
use crate::identifier::{valid_identifier, ChannelId, PortId, Sequence};
use crate::raw::{
    RawHeight, RawMsgChannelCloseConfirm, RawMsgChannelCloseConfirmView, RawMsgChannelCloseInit,
    RawMsgChannelCloseInitView, RawMsgTimeout, RawMsgTimeoutView, RawPacket, RawPacketView,
};
use crate::signer::Signer;
use crate::timestamp::Timestamp;

verus! {

// ---------------------------------------------------------------------
// Packet
// ---------------------------------------------------------------------
/// An application payload in flight between two chains.
#[derive(Debug, PartialEq, Eq)]
pub struct Packet {
    pub sequence: Sequence,
    pub source_port: PortId,
    pub source_channel: ChannelId,
    pub destination_port: PortId,
    pub destination_channel: ChannelId,
    pub data: Vec<u8>,
    pub timeout_height: Option<Height>,
    pub timeout_timestamp: Timestamp,
}

#[verifier::ext_equal]
pub struct PacketView {
    pub sequence: u64,
    pub source_port: Seq<char>,
    pub source_channel: Seq<char>,
    pub destination_port: Seq<char>,
    pub destination_channel: Seq<char>,
    pub data: Seq<u8>,
    pub timeout_height: Option<Height>,
    pub timeout_timestamp: Timestamp,
}

impl View for Packet {
    type V = PacketView;

    open spec fn view(&self) -> PacketView {
        PacketView {
            sequence: self.sequence.value,
            source_port: self.source_port@,
            source_channel: self.source_channel@,
            destination_port: self.destination_port@,
            destination_channel: self.destination_channel@,
            data: self.data@,
            timeout_height: self.timeout_height,
            timeout_timestamp: self.timeout_timestamp,
        }
    }
}

impl Clone for Packet {
    fn clone(&self) -> (r: Self)
        ensures
            r@ == self@,
    {
        let r = Packet {
            sequence: self.sequence,
            source_port: self.source_port.clone(),
            source_channel: self.source_channel.clone(),
            destination_port: self.destination_port.clone(),
            destination_channel: self.destination_channel.clone(),
            data: self.data.clone(),
            timeout_height: self.timeout_height,
            timeout_timestamp: self.timeout_timestamp,
        };
        proof {
            assert(r@ == self@);
        }
        r
    }
}

/// A wire timeout height of `(0, 0)` or absent means "no height timeout";
/// any other wire height must be a well-formed height.
pub open spec fn timeout_height_from_raw(raw: Option<RawHeight>) -> Option<Height> {
    match raw {
        None => None,
        Some(h) => if h.revision_number == 0 && h.revision_height == 0 {
            None
        } else {
            Some(Height { revision_number: h.revision_number, revision_height: h.revision_height })
        },
    }
}

pub open spec fn timeout_height_raw_valid(raw: Option<RawHeight>) -> bool {
    match raw {
        None => true,
        Some(h) => h.revision_height > 0 || h.revision_number == 0,
    }
}

/// An unset timeout height renders back to the zero wire height.
pub open spec fn timeout_height_to_raw(th: Option<Height>) -> Option<RawHeight> {
    match th {
        None => Some(RawHeight { revision_number: 0, revision_height: 0 }),
        Some(h) => Some(
            RawHeight { revision_number: h.revision_number, revision_height: h.revision_height },
        ),
    }
}

/// A wire packet is accepted when its sequence is positive, its identifiers
/// are valid, its timeout height is well formed, and at least one of the
/// two timeouts is set.
pub open spec fn packet_raw_valid(rv: RawPacketView) -> bool {
    &&& rv.sequence > 0
    &&& valid_identifier(rv.source_port, 2, 128)
    &&& valid_identifier(rv.source_channel, 8, 64)
    &&& valid_identifier(rv.destination_port, 2, 128)
    &&& valid_identifier(rv.destination_channel, 8, 64)
    &&& timeout_height_raw_valid(rv.timeout_height)
    &&& !(timeout_height_from_raw(rv.timeout_height) is None && rv.timeout_timestamp == 0)
}

pub open spec fn packet_from_raw(rv: RawPacketView) -> PacketView {
    PacketView {
        sequence: rv.sequence,
        source_port: rv.source_port,
        source_channel: rv.source_channel,
        destination_port: rv.destination_port,
        destination_channel: rv.destination_channel,
        data: rv.data,
        timeout_height: timeout_height_from_raw(rv.timeout_height),
        timeout_timestamp: Timestamp { nanos: rv.timeout_timestamp },
    }
}

pub open spec fn packet_to_raw(pv: PacketView) -> RawPacketView {
    RawPacketView {
        sequence: pv.sequence,
        source_port: pv.source_port,
        source_channel: pv.source_channel,
        destination_port: pv.destination_port,
        destination_channel: pv.destination_channel,
        data: pv.data,
        timeout_height: timeout_height_to_raw(pv.timeout_height),
        timeout_timestamp: pv.timeout_timestamp.nanos,
    }
}

impl Packet {
    /// At least one of the two timeouts is set.
    pub open spec fn has_timeout(&self) -> bool {
        self.timeout_height is Some || self.timeout_timestamp.spec_is_set()
    }

    /// Validates a wire packet.
    pub fn try_from_raw(raw: RawPacket) -> (r: Result<Packet, PacketError>)
        ensures
            r is Ok <==> packet_raw_valid(raw@),
            r matches Ok(p) ==> p@ == packet_from_raw(raw@),
            raw.sequence == 0 ==> r == Err::<Packet, PacketError>(PacketError::ZeroPacketSequence),
    {
        if raw.sequence == 0 {
            return Err(PacketError::ZeroPacketSequence);
        }
        let source_port = match PortId::from_str(raw.source_port.as_str()) {
            Ok(p) => p,
            Err(e) => {
                return Err(PacketError::InvalidIdentifier(e));
            },
        };
        let source_channel = match ChannelId::from_str(raw.source_channel.as_str()) {
            Ok(c) => c,
            Err(e) => {
                return Err(PacketError::InvalidIdentifier(e));
            },
        };
        let destination_port = match PortId::from_str(raw.destination_port.as_str()) {
            Ok(p) => p,
            Err(e) => {
                return Err(PacketError::InvalidIdentifier(e));
            },
        };
        let destination_channel = match ChannelId::from_str(raw.destination_channel.as_str()) {
            Ok(c) => c,
            Err(e) => {
                return Err(PacketError::InvalidIdentifier(e));
            },
        };
        let timeout_height: Option<Height> = match raw.timeout_height {
            None => None,
            Some(h) => {
                if h.revision_number == 0 && h.revision_height == 0 {
                    None
                } else if h.revision_height == 0 {
                    return Err(PacketError::InvalidTimeoutHeight);
                } else {
                    Some(
                        Height {
                            revision_number: h.revision_number,
                            revision_height: h.revision_height,
                        },
                    )
                }
            },
        };
        let timeout_timestamp = Timestamp::from_nanoseconds(raw.timeout_timestamp);
        if timeout_height.is_none() && !timeout_timestamp.is_set() {
            return Err(PacketError::MissingTimeout);
        }
        Ok(
            Packet {
                sequence: Sequence::new(raw.sequence),
                source_port,
                source_channel,
                destination_port,
                destination_channel,
                data: raw.data,
                timeout_height,
                timeout_timestamp,
            },
        )
    }

    /// Renders the packet back to its wire form.
    pub fn into_raw(self) -> (r: RawPacket)
        ensures
            r@ == packet_to_raw(self@),
    {
        let timeout_height: Option<RawHeight> = match self.timeout_height {
            None => Some(RawHeight { revision_number: 0, revision_height: 0 }),
            Some(h) => Some(
                RawHeight {
                    revision_number: h.revision_number,
                    revision_height: h.revision_height,
                },
            ),
        };
        RawPacket {
            sequence: self.sequence.value,
            source_port: self.source_port.id,
            source_channel: self.source_channel.id,
            destination_port: self.destination_port.id,
            destination_channel: self.destination_channel.id,
            data: self.data,
            timeout_height,
            timeout_timestamp: self.timeout_timestamp.nanos,
        }
    }
}

/// A packet built from a valid wire packet renders back to a wire packet
/// that is again valid and denotes the same packet.
pub proof fn lemma_packet_round_trip(rv: RawPacketView)
    requires
        packet_raw_valid(rv),
    ensures
        packet_raw_valid(packet_to_raw(packet_from_raw(rv))),
        packet_from_raw(packet_to_raw(packet_from_raw(rv))) == packet_from_raw(rv),
{
}

// ---------------------------------------------------------------------
// MsgChannelCloseInit
// ---------------------------------------------------------------------
/// First step of the channel close handshake, sent to chain A.
#[derive(Debug, PartialEq, Eq)]
pub struct MsgChannelCloseInit {
    pub port_id_on_a: PortId,
    pub chan_id_on_a: ChannelId,
    pub signer: Signer,
}

#[verifier::ext_equal]
pub struct MsgChannelCloseInitView {
    pub port_id_on_a: Seq<char>,
    pub chan_id_on_a: Seq<char>,
    pub signer: Seq<char>,
}

impl View for MsgChannelCloseInit {
    type V = MsgChannelCloseInitView;

    open spec fn view(&self) -> MsgChannelCloseInitView {
        MsgChannelCloseInitView {
            port_id_on_a: self.port_id_on_a@,
            chan_id_on_a: self.chan_id_on_a@,
            signer: self.signer@,
        }
    }
}

pub open spec fn chan_close_init_raw_valid(rv: RawMsgChannelCloseInitView) -> bool {
    valid_identifier(rv.port_id, 2, 128) && valid_identifier(rv.channel_id, 8, 64)
}

pub open spec fn chan_close_init_from_raw(rv: RawMsgChannelCloseInitView)
    -> MsgChannelCloseInitView {
    MsgChannelCloseInitView {
        port_id_on_a: rv.port_id,
        chan_id_on_a: rv.channel_id,
        signer: rv.signer,
    }
}

pub open spec fn chan_close_init_to_raw(mv: MsgChannelCloseInitView)
    -> RawMsgChannelCloseInitView {
    RawMsgChannelCloseInitView {
        port_id: mv.port_id_on_a,
        channel_id: mv.chan_id_on_a,
        signer: mv.signer,
    }
}

impl MsgChannelCloseInit {
    /// The wire envelope's type URL for this message.
    pub fn type_url(&self) -> (r: String)
        ensures
            r@ == "/ibc.core.channel.v1.MsgChannelCloseInit"@,
    {
        String::from_str("/ibc.core.channel.v1.MsgChannelCloseInit")
    }

    /// Validates the wire form: both identifiers must be well formed.
    pub fn try_from_raw(raw: RawMsgChannelCloseInit) -> (r: Result<
        MsgChannelCloseInit,
        ChannelError,
    >)
        ensures
            r is Ok <==> chan_close_init_raw_valid(raw@),
            r matches Ok(m) ==> m@ == chan_close_init_from_raw(raw@),
            r matches Err(e) ==> e matches ChannelError::InvalidIdentifier(_),
    {
        let port_id_on_a = match PortId::from_str(raw.port_id.as_str()) {
            Ok(p) => p,
            Err(e) => {
                return Err(ChannelError::InvalidIdentifier(e));
            },
        };
        let chan_id_on_a = match ChannelId::from_str(raw.channel_id.as_str()) {
            Ok(c) => c,
            Err(e) => {
                return Err(ChannelError::InvalidIdentifier(e));
            },
        };
        Ok(MsgChannelCloseInit { port_id_on_a, chan_id_on_a, signer: Signer::from_string(raw.signer) })
    }

    /// Renders the message back to its wire form.
    pub fn into_raw(self) -> (r: RawMsgChannelCloseInit)
        ensures
            r@ == chan_close_init_to_raw(self@),
    {
        RawMsgChannelCloseInit {
            port_id: self.port_id_on_a.id,
            channel_id: self.chan_id_on_a.id,
            signer: self.signer.account,
        }
    }
}

/// Round trip for `MsgChannelCloseInit`: rendering a message built from a
/// valid wire record gives back the same wire record, hence the same
/// message.
pub proof fn lemma_chan_close_init_round_trip(rv: RawMsgChannelCloseInitView)
    requires
        chan_close_init_raw_valid(rv),
    ensures
        chan_close_init_to_raw(chan_close_init_from_raw(rv)) == rv,
        chan_close_init_from_raw(chan_close_init_to_raw(chan_close_init_from_raw(rv)))
            == chan_close_init_from_raw(rv),
{
}

// ---------------------------------------------------------------------
// MsgChannelCloseConfirm
// ---------------------------------------------------------------------
/// Second step of the channel close handshake, sent to chain B with a proof
/// that chain A's channel end is already `Closed`.
#[derive(Debug, PartialEq, Eq)]
pub struct MsgChannelCloseConfirm {
    pub port_id_on_b: PortId,
    pub chan_id_on_b: ChannelId,
    pub proof_chan_end_on_a: CommitmentProofBytes,
    pub proof_height_on_a: Height,
    pub signer: Signer,
}

#[verifier::ext_equal]
pub struct MsgChannelCloseConfirmView {
    pub port_id_on_b: Seq<char>,
    pub chan_id_on_b: Seq<char>,
    pub proof_chan_end_on_a: Seq<u8>,
    pub proof_height_on_a: Height,
    pub signer: Seq<char>,
}

impl View for MsgChannelCloseConfirm {
    type V = MsgChannelCloseConfirmView;

    open spec fn view(&self) -> MsgChannelCloseConfirmView {
        MsgChannelCloseConfirmView {
            port_id_on_b: self.port_id_on_b@,
            chan_id_on_b: self.chan_id_on_b@,
            proof_chan_end_on_a: self.proof_chan_end_on_a@,
            proof_height_on_a: self.proof_height_on_a,
            signer: self.signer@,
        }
    }
}

pub open spec fn proof_height_raw_valid(raw: Option<RawHeight>) -> bool {
    raw matches Some(h) && h.revision_height > 0
}

pub open spec fn proof_height_from_raw(raw: Option<RawHeight>) -> Height
    recommends
        proof_height_raw_valid(raw),
{
    Height {
        revision_number: raw->Some_0.revision_number,
        revision_height: raw->Some_0.revision_height,
    }
}

pub open spec fn chan_close_confirm_raw_valid(rv: RawMsgChannelCloseConfirmView) -> bool {
    &&& valid_identifier(rv.port_id, 2, 128)
    &&& valid_identifier(rv.channel_id, 8, 64)
    &&& rv.proof_init.len() > 0
    &&& proof_height_raw_valid(rv.proof_height)
}

pub open spec fn chan_close_confirm_from_raw(rv: RawMsgChannelCloseConfirmView)
    -> MsgChannelCloseConfirmView {
    MsgChannelCloseConfirmView {
        port_id_on_b: rv.port_id,
        chan_id_on_b: rv.channel_id,
        proof_chan_end_on_a: rv.proof_init,
        proof_height_on_a: proof_height_from_raw(rv.proof_height),
        signer: rv.signer,
    }
}

pub open spec fn chan_close_confirm_to_raw(mv: MsgChannelCloseConfirmView)
    -> RawMsgChannelCloseConfirmView {
    RawMsgChannelCloseConfirmView {
        port_id: mv.port_id_on_b,
        channel_id: mv.chan_id_on_b,
        proof_init: mv.proof_chan_end_on_a,
        proof_height: Some(
            RawHeight {
                revision_number: mv.proof_height_on_a.revision_number,
                revision_height: mv.proof_height_on_a.revision_height,
            },
        ),
        signer: mv.signer,
    }
}

impl MsgChannelCloseConfirm {
    /// The wire envelope's type URL for this message.
    pub fn type_url(&self) -> (r: String)
        ensures
            r@ == "/ibc.core.channel.v1.MsgChannelCloseConfirm"@,
    {
        String::from_str("/ibc.core.channel.v1.MsgChannelCloseConfirm")
    }

    /// Validates the wire form: identifiers, a nonempty proof, and a
    /// well-formed proof height.
    pub fn try_from_raw(raw: RawMsgChannelCloseConfirm) -> (r: Result<
        MsgChannelCloseConfirm,
        ChannelError,
    >)
        ensures
            r is Ok <==> chan_close_confirm_raw_valid(raw@),
            r matches Ok(m) ==> m@ == chan_close_confirm_from_raw(raw@),
    {
        let port_id_on_b = match PortId::from_str(raw.port_id.as_str()) {
            Ok(p) => p,
            Err(e) => {
                return Err(ChannelError::InvalidIdentifier(e));
            },
        };
        let chan_id_on_b = match ChannelId::from_str(raw.channel_id.as_str()) {
            Ok(c) => c,
            Err(e) => {
                return Err(ChannelError::InvalidIdentifier(e));
            },
        };
        let proof_chan_end_on_a = match CommitmentProofBytes::try_from_vec(raw.proof_init) {
            Some(p) => p,
            None => {
                return Err(ChannelError::InvalidProof);
            },
        };
        let proof_height_on_a = match raw.proof_height {
            Some(h) => {
                if h.revision_height == 0 {
                    return Err(ChannelError::MissingHeight);
                } else {
                    Height { revision_number: h.revision_number, revision_height: h.revision_height }
                }
            },
            None => {
                return Err(ChannelError::MissingHeight);
            },
        };
        Ok(
            MsgChannelCloseConfirm {
                port_id_on_b,
                chan_id_on_b,
                proof_chan_end_on_a,
                proof_height_on_a,
                signer: Signer::from_string(raw.signer),
            },
        )
    }

    /// Renders the message back to its wire form.
    pub fn into_raw(self) -> (r: RawMsgChannelCloseConfirm)
        ensures
            r@ == chan_close_confirm_to_raw(self@),
    {
        RawMsgChannelCloseConfirm {
            port_id: self.port_id_on_b.id,
            channel_id: self.chan_id_on_b.id,
            proof_init: self.proof_chan_end_on_a.into_vec(),
            proof_height: Some(
                RawHeight {
                    revision_number: self.proof_height_on_a.revision_number,
                    revision_height: self.proof_height_on_a.revision_height,
                },
            ),
            signer: self.signer.account,
        }
    }
}

/// Round trip for `MsgChannelCloseConfirm`.
pub proof fn lemma_chan_close_confirm_round_trip(rv: RawMsgChannelCloseConfirmView)
    requires
        chan_close_confirm_raw_valid(rv),
    ensures
        chan_close_confirm_to_raw(chan_close_confirm_from_raw(rv)) == rv,
        chan_close_confirm_from_raw(chan_close_confirm_to_raw(chan_close_confirm_from_raw(rv)))
            == chan_close_confirm_from_raw(rv),
{
}

// ---------------------------------------------------------------------
// MsgTimeout
// ---------------------------------------------------------------------
/// Packet-timeout message, sent to chain A with a proof that the packet was
/// never received on chain B.
#[derive(Debug, PartialEq, Eq)]
pub struct MsgTimeout {
    pub packet: Packet,
    pub next_seq_recv_on_b: Sequence,
    pub proof_unreceived_on_b: CommitmentProofBytes,
    pub proof_height_on_b: Height,
    pub signer: Signer,
}

#[verifier::ext_equal]
pub struct MsgTimeoutView {
    pub packet: PacketView,
    pub next_seq_recv_on_b: u64,
    pub proof_unreceived_on_b: Seq<u8>,
    pub proof_height_on_b: Height,
    pub signer: Seq<char>,
}

impl View for MsgTimeout {
    type V = MsgTimeoutView;

    open spec fn view(&self) -> MsgTimeoutView {
        MsgTimeoutView {
            packet: self.packet@,
            next_seq_recv_on_b: self.next_seq_recv_on_b.value,
            proof_unreceived_on_b: self.proof_unreceived_on_b@,
            proof_height_on_b: self.proof_height_on_b,
            signer: self.signer@,
        }
    }
}

pub open spec fn msg_timeout_raw_valid(rv: RawMsgTimeoutView) -> bool {
    &&& rv.next_sequence_recv > 0
    &&& rv.packet matches Some(pv) && packet_raw_valid(pv)
    &&& rv.proof_unreceived.len() > 0
    &&& proof_height_raw_valid(rv.proof_height)
}

pub open spec fn msg_timeout_from_raw(rv: RawMsgTimeoutView) -> MsgTimeoutView
    recommends
        msg_timeout_raw_valid(rv),
{
    MsgTimeoutView {
        packet: packet_from_raw(rv.packet->Some_0),
        next_seq_recv_on_b: rv.next_sequence_recv,
        proof_unreceived_on_b: rv.proof_unreceived,
        proof_height_on_b: proof_height_from_raw(rv.proof_height),
        signer: rv.signer,
    }
}

pub open spec fn msg_timeout_to_raw(mv: MsgTimeoutView) -> RawMsgTimeoutView {
    RawMsgTimeoutView {
        packet: Some(packet_to_raw(mv.packet)),
        proof_unreceived: mv.proof_unreceived_on_b,
        proof_height: Some(
            RawHeight {
                revision_number: mv.proof_height_on_b.revision_number,
                revision_height: mv.proof_height_on_b.revision_height,
            },
        ),
        next_sequence_recv: mv.next_seq_recv_on_b,
        signer: mv.signer,
    }
}

impl MsgTimeout {
    /// The wire envelope's type URL for this message.
    pub fn type_url(&self) -> (r: String)
        ensures
            r@ == "/ibc.core.channel.v1.MsgTimeout"@,
    {
        String::from_str("/ibc.core.channel.v1.MsgTimeout")
    }

    /// Validates the wire form: a positive reported receive sequence, a
    /// valid packet, a nonempty proof, and a well-formed proof height.
    pub fn try_from_raw(raw: RawMsgTimeout) -> (r: Result<MsgTimeout, PacketError>)
        ensures
            r is Ok <==> msg_timeout_raw_valid(raw@),
            r matches Ok(m) ==> m@ == msg_timeout_from_raw(raw@),
            raw.next_sequence_recv == 0 ==> r == Err::<MsgTimeout, PacketError>(
                PacketError::ZeroPacketSequence,
            ),
            raw.next_sequence_recv > 0 && raw.packet is None ==> r == Err::<MsgTimeout,
                PacketError,
            >(PacketError::MissingPacket),
            (raw.next_sequence_recv > 0 && (raw@.packet matches Some(pv) && packet_raw_valid(pv))
                && raw.proof_unreceived@.len() == 0) ==> r == Err::<MsgTimeout, PacketError>(
                PacketError::InvalidProof,
            ),
            (raw.next_sequence_recv > 0 && (raw@.packet matches Some(pv) && packet_raw_valid(pv))
                && raw.proof_unreceived@.len() > 0 && !proof_height_raw_valid(raw.proof_height))
                ==> r == Err::<MsgTimeout, PacketError>(PacketError::MissingHeight),
    {
        if raw.next_sequence_recv == 0 {
            return Err(PacketError::ZeroPacketSequence);
        }
        let packet = match raw.packet {
            Some(p) => match Packet::try_from_raw(p) {
                Ok(p) => p,
                Err(e) => {
                    return Err(e);
                },
            },
            None => {
                return Err(PacketError::MissingPacket);
            },
        };
        let proof_unreceived_on_b = match CommitmentProofBytes::try_from_vec(raw.proof_unreceived) {
            Some(p) => p,
            None => {
                return Err(PacketError::InvalidProof);
            },
        };
        let proof_height_on_b = match raw.proof_height {
            Some(h) => {
                if h.revision_height == 0 {
                    return Err(PacketError::MissingHeight);
                } else {
                    Height { revision_number: h.revision_number, revision_height: h.revision_height }
                }
            },
            None => {
                return Err(PacketError::MissingHeight);
            },
        };
        Ok(
            MsgTimeout {
                packet,
                next_seq_recv_on_b: Sequence::new(raw.next_sequence_recv),
                proof_unreceived_on_b,
                proof_height_on_b,
                signer: Signer::from_string(raw.signer),
            },
        )
    }

    /// Renders the message back to its wire form.
    pub fn into_raw(self) -> (r: RawMsgTimeout)
        ensures
            r@ == msg_timeout_to_raw(self@),
    {
        RawMsgTimeout {
            packet: Some(self.packet.into_raw()),
            proof_unreceived: self.proof_unreceived_on_b.into_vec(),
            proof_height: Some(
                RawHeight {
                    revision_number: self.proof_height_on_b.revision_number,
                    revision_height: self.proof_height_on_b.revision_height,
                },
            ),
            next_sequence_recv: self.next_seq_recv_on_b.value,
            signer: self.signer.account,
        }
    }
}

/// Round trip for `MsgTimeout`: rendering a message built from a valid wire
/// record gives back the same wire record, hence the same message.
pub proof fn lemma_msg_timeout_round_trip(rv: RawMsgTimeoutView)
    requires
        msg_timeout_raw_valid(rv),
    ensures
        msg_timeout_raw_valid(msg_timeout_to_raw(msg_timeout_from_raw(rv))),
        msg_timeout_from_raw(msg_timeout_to_raw(msg_timeout_from_raw(rv))) == msg_timeout_from_raw(
            rv,
        ),
{
    let pv = rv.packet->Some_0;
    lemma_packet_round_trip(pv);
}

// ---------------------------------------------------------------------
// MsgRecvPacket and MsgAcknowledgement
// ---------------------------------------------------------------------
/// Packet-receive message, sent to chain B with a proof that chain A stored
/// the packet commitment.
#[derive(Debug, PartialEq, Eq)]
pub struct MsgRecvPacket {
    pub packet: Packet,
    pub proof_commitment_on_a: CommitmentProofBytes,
    pub proof_height_on_a: Height,
    pub signer: Signer,
}

/// Packet-acknowledgement message, sent to chain A with a proof that chain
/// B stored the acknowledgement.
#[derive(Debug, PartialEq, Eq)]
pub struct MsgAcknowledgement {
    pub packet: Packet,
    pub acknowledgement: Vec<u8>,
    pub proof_acked_on_b: CommitmentProofBytes,
    pub proof_height_on_b: Height,
    pub signer: Signer,
}

/// Packet-timeout message for a counterparty that closed its channel before
/// receiving the packet, sent to chain A.
#[derive(Debug, PartialEq, Eq)]
pub struct MsgTimeoutOnClose {
    pub packet: Packet,
    pub next_seq_recv_on_b: Sequence,
    pub proof_unreceived_on_b: CommitmentProofBytes,
    pub proof_close_on_b: CommitmentProofBytes,
    pub proof_height_on_b: Height,
    pub signer: Signer,
}

// ---------------------------------------------------------------------
// Channel open handshake messages
// ---------------------------------------------------------------------
/// First step of the channel handshake, sent to chain A.
#[derive(Debug, PartialEq, Eq)]
pub struct MsgChannelOpenInit {
    pub port_id_on_a: PortId,
    pub connection_hops_on_a: Vec<crate::identifier::ConnectionId>,
    pub port_id_on_b: PortId,
    pub ordering: crate::channel::Order,
    pub version_proposal: String,
    pub signer: Signer,
}

/// Second step, sent to chain B with proof of chain A's `Init` end.
#[derive(Debug, PartialEq, Eq)]
pub struct MsgChannelOpenTry {
    pub port_id_on_b: PortId,
    pub connection_hops_on_b: Vec<crate::identifier::ConnectionId>,
    pub port_id_on_a: PortId,
    pub chan_id_on_a: ChannelId,
    pub version_supported_on_a: String,
    pub proof_chan_end_on_a: CommitmentProofBytes,
    pub proof_height_on_a: Height,
    pub ordering: crate::channel::Order,
    pub signer: Signer,
}

/// Third step, sent to chain A with proof of chain B's `TryOpen` end.
#[derive(Debug, PartialEq, Eq)]
pub struct MsgChannelOpenAck {
    pub port_id_on_a: PortId,
    pub chan_id_on_a: ChannelId,
    pub chan_id_on_b: ChannelId,
    pub version_on_b: String,
    pub proof_chan_end_on_b: CommitmentProofBytes,
    pub proof_height_on_b: Height,
    pub signer: Signer,
}

/// Fourth step, sent to chain B with proof that chain A is `Open`.
#[derive(Debug, PartialEq, Eq)]
pub struct MsgChannelOpenConfirm {
    pub port_id_on_b: PortId,
    pub chan_id_on_b: ChannelId,
    pub proof_chan_end_on_a: CommitmentProofBytes,
    pub proof_height_on_a: Height,
    pub signer: Signer,
}

} // verus!
