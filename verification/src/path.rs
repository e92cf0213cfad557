//! Canonical Merkle-store paths. Every object the host stores for the
//! protocol lives under one of these keys.

use vstd::prelude::*;

use crate::height::Height;
use crate::identifier::{dec_str, u64_to_dec, ChannelId, ClientId, ConnectionId, PortId};

verus! {

/// A typed store path; `path_key` gives its canonical rendering.
#[derive(Debug, PartialEq, Eq)]
pub enum Path {
    ClientState { client_id: ClientId },
    ClientConsensusState { client_id: ClientId, height: Height },
    Connection { connection_id: ConnectionId },
    ChannelEnd { port_id: PortId, channel_id: ChannelId },
    SeqSend { port_id: PortId, channel_id: ChannelId },
    SeqRecv { port_id: PortId, channel_id: ChannelId },
    SeqAck { port_id: PortId, channel_id: ChannelId },
    Commitment { port_id: PortId, channel_id: ChannelId, sequence: u64 },
    Receipt { port_id: PortId, channel_id: ChannelId, sequence: u64 },
    Ack { port_id: PortId, channel_id: ChannelId, sequence: u64 },
}

/// The `{rev}-{height}` rendering of a height, used under
/// `consensusStates/`.
pub open spec fn height_key(h: Height) -> Seq<char> {
    dec_str(h.revision_number as nat) + "-"@ + dec_str(h.revision_height as nat)
}

/// The `ports/{port}/channels/{chan}` rendering shared by the
/// channel-scoped paths.
pub open spec fn port_channel_key(port_id: Seq<char>, channel_id: Seq<char>) -> Seq<char> {
    "ports/"@ + port_id + "/channels/"@ + channel_id
}

pub open spec fn sequence_suffix(sequence: u64) -> Seq<char> {
    "/sequences/"@ + dec_str(sequence as nat)
}

/// The canonical key of a path in the host's Merkle store.
pub open spec fn path_key(p: Path) -> Seq<char> {
    match p {
        Path::ClientState { client_id } => "clients/"@ + client_id@ + "/clientState"@,
        Path::ClientConsensusState { client_id, height } => "clients/"@ + client_id@
            + "/consensusStates/"@ + height_key(height),
        Path::Connection { connection_id } => "connections/"@ + connection_id@,
        Path::ChannelEnd { port_id, channel_id } => "channelEnds/"@ + port_channel_key(
            port_id@,
            channel_id@,
        ),
        Path::SeqSend { port_id, channel_id } => "nextSequenceSend/"@ + port_channel_key(
            port_id@,
            channel_id@,
        ),
        Path::SeqRecv { port_id, channel_id } => "nextSequenceRecv/"@ + port_channel_key(
            port_id@,
            channel_id@,
        ),
        Path::SeqAck { port_id, channel_id } => "nextSequenceAck/"@ + port_channel_key(
            port_id@,
            channel_id@,
        ),
        Path::Commitment { port_id, channel_id, sequence } => "commitments/"@ + port_channel_key(
            port_id@,
            channel_id@,
        ) + sequence_suffix(sequence),
        Path::Receipt { port_id, channel_id, sequence } => "receipts/"@ + port_channel_key(
            port_id@,
            channel_id@,
        ) + sequence_suffix(sequence),
        Path::Ack { port_id, channel_id, sequence } => "acks/"@ + port_channel_key(
            port_id@,
            channel_id@,
        ) + sequence_suffix(sequence),
    }
}

/// Renders the `{rev}-{height}` key of a height.
pub fn height_key_string(h: &Height) -> (r: String)
    ensures
        r@ == height_key(*h),
{
    let mut s = u64_to_dec(h.revision_number);
    s.append("-");
    s.append(u64_to_dec(h.revision_height).as_str());
    proof {
        assert(s@ =~= height_key(*h));
    }
    s
}

/// Renders the `ports/{port}/channels/{chan}` key of a channel.
pub fn port_channel_string(port_id: &PortId, channel_id: &ChannelId) -> (r: String)
    ensures
        r@ == port_channel_key(port_id@, channel_id@),
{
    let mut s = String::new();
    append_port_channel(&mut s, port_id, channel_id);
    proof {
        assert(s@ =~= port_channel_key(port_id@, channel_id@));
    }
    s
}

/// The key of a packet-scoped object: the channel key followed by the
/// sequence.
pub open spec fn packet_key(port_id: Seq<char>, channel_id: Seq<char>, sequence: u64) -> Seq<
    char,
> {
    port_channel_key(port_id, channel_id) + sequence_suffix(sequence)
}

/// Renders the key of a packet-scoped object.
pub fn packet_key_string(port_id: &PortId, channel_id: &ChannelId, sequence: u64) -> (r: String)
    ensures
        r@ == packet_key(port_id@, channel_id@, sequence),
{
    let mut s = port_channel_string(port_id, channel_id);
    append_sequence_suffix(&mut s, sequence);
    s
}

fn append_port_channel(s: &mut String, port_id: &PortId, channel_id: &ChannelId)
    ensures
        final(s)@ == old(s)@ + port_channel_key(port_id@, channel_id@),
{
    s.append("ports/");
    s.append(port_id.as_str());
    s.append("/channels/");
    s.append(channel_id.as_str());
    proof {
        assert(s@ =~= old(s)@ + port_channel_key(port_id@, channel_id@));
    }
}

fn append_sequence_suffix(s: &mut String, sequence: u64)
    ensures
        final(s)@ == old(s)@ + sequence_suffix(sequence),
{
    s.append("/sequences/");
    s.append(u64_to_dec(sequence).as_str());
    proof {
        assert(s@ =~= old(s)@ + sequence_suffix(sequence));
    }
}

/// Renders the canonical key of a path.
pub fn key_string(p: &Path) -> (r: String)
    ensures
        r@ == path_key(*p),
{
    match p {
        Path::ClientState { client_id } => {
            let mut s = String::from_str("clients/");
            s.append(client_id.as_str());
            s.append("/clientState");
            proof {
                assert(s@ =~= path_key(*p));
            }
            s
        },
        Path::ClientConsensusState { client_id, height } => {
            let mut s = String::from_str("clients/");
            s.append(client_id.as_str());
            s.append("/consensusStates/");
            s.append(height_key_string(height).as_str());
            proof {
                assert(s@ =~= path_key(*p));
            }
            s
        },
        Path::Connection { connection_id } => {
            let mut s = String::from_str("connections/");
            s.append(connection_id.as_str());
            proof {
                assert(s@ =~= path_key(*p));
            }
            s
        },
        Path::ChannelEnd { port_id, channel_id } => {
            let mut s = String::from_str("channelEnds/");
            append_port_channel(&mut s, port_id, channel_id);
            proof {
                assert(s@ =~= path_key(*p));
            }
            s
        },
        Path::SeqSend { port_id, channel_id } => {
            let mut s = String::from_str("nextSequenceSend/");
            append_port_channel(&mut s, port_id, channel_id);
            proof {
                assert(s@ =~= path_key(*p));
            }
            s
        },
        Path::SeqRecv { port_id, channel_id } => {
            let mut s = String::from_str("nextSequenceRecv/");
            append_port_channel(&mut s, port_id, channel_id);
            proof {
                assert(s@ =~= path_key(*p));
            }
            s
        },
        Path::SeqAck { port_id, channel_id } => {
            let mut s = String::from_str("nextSequenceAck/");
            append_port_channel(&mut s, port_id, channel_id);
            proof {
                assert(s@ =~= path_key(*p));
            }
            s
        },
        Path::Commitment { port_id, channel_id, sequence } => {
            let mut s = String::from_str("commitments/");
            append_port_channel(&mut s, port_id, channel_id);
            append_sequence_suffix(&mut s, *sequence);
            proof {
                assert(s@ =~= path_key(*p));
            }
            s
        },
        Path::Receipt { port_id, channel_id, sequence } => {
            let mut s = String::from_str("receipts/");
            append_port_channel(&mut s, port_id, channel_id);
            append_sequence_suffix(&mut s, *sequence);
            proof {
                assert(s@ =~= path_key(*p));
            }
            s
        },
        Path::Ack { port_id, channel_id, sequence } => {
            let mut s = String::from_str("acks/");
            append_port_channel(&mut s, port_id, channel_id);
            append_sequence_suffix(&mut s, *sequence);
            proof {
                assert(s@ =~= path_key(*p));
            }
            s
        },
    }
}

} // verus!
