//! Pulling packets from the capture's packet cursor, and encoding the
//! records of the two output channels.
//!
//! Decoding, and the MessagePack encoding of packets and game states, are
//! done by the decoder library and by rmp_serde; this module decides what
//! each pull means for the run.
use vstd::prelude::*;
use crate::errors::RunError;
use crate::ingest::{Action, Event, Ingest, Phase, next};
use tf_demo_parser::demo::data::game_state::GameState;
use tf_demo_parser::demo::packet::Packet;
use tf_demo_parser::demo::parser::{ParseError, ParserState, RawPacketStream};

verus! {

#[verifier::external_type_specification]
#[verifier::external_body]
pub struct ExRawPacketStream<'a>(RawPacketStream<'a>);

#[verifier::external_type_specification]
#[verifier::external_body]
pub struct ExParserState(ParserState);

#[verifier::external_type_specification]
#[verifier::external_body]
pub struct ExPacket<'a>(Packet<'a>);

#[verifier::external_type_specification]
#[verifier::external_body]
pub struct ExParseError(ParseError);

#[verifier::external_type_specification]
#[verifier::external_body]
pub struct ExGameState(GameState);

#[verifier::external_type_specification]
#[verifier::external_body]
pub struct ExEncodeError(rmp_serde::encode::Error);

/// Relies on `RawPacketStream::next`: decodes the next packet against the
/// parser state; `Ok(None)` once the stream has ended.
#[verifier::external_body]
fn next_packet<'a>(stream: &mut RawPacketStream<'a>, state: &ParserState) -> (r: Result<
    Option<Packet<'a>>,
    ParseError,
>) {
    stream.next(state)
}

/// Relies on the public fields `ended` and `incomplete` of
/// `RawPacketStream`: with both cleared, the next pull decodes again from
/// where the cursor stands.
#[verifier::external_body]
fn clear_fault_flags(stream: &mut RawPacketStream) {
    stream.ended = false;
    stream.incomplete = false;
}

/// Relies on the `Debug` impl of `ParseError` for a readable diagnostic.
#[verifier::external_body]
fn describe_fault(e: &ParseError) -> (r: String) {
    format!("{:?}", e)
}

/// The MessagePack encoding of a packet by rmp_serde's default serializer,
/// or `None` where it fails.
pub uninterp spec fn packet_msgpack(p: Packet) -> Option<Seq<u8>>;

/// The MessagePack encoding of a game state by rmp_serde's default
/// serializer, or `None` where it fails.
pub uninterp spec fn state_msgpack(s: GameState) -> Option<Seq<u8>>;

/// Relies on `rmp_serde::to_vec`: the MessagePack encoding of a packet,
/// which depends on the packet alone.
#[verifier::external_body]
fn msgpack_packet(p: &Packet) -> (r: Result<Vec<u8>, rmp_serde::encode::Error>)
    ensures
        match r {
            Ok(b) => packet_msgpack(*p) == Some(b@),
            Err(_) => packet_msgpack(*p) is None,
        },
{
    rmp_serde::to_vec(p)
}

/// Relies on `rmp_serde::to_vec`: the MessagePack encoding of a game state,
/// which depends on the state alone (its maps are ordered maps).
#[verifier::external_body]
fn msgpack_state(s: &GameState) -> (r: Result<Vec<u8>, rmp_serde::encode::Error>)
    ensures
        match r {
            Ok(b) => state_msgpack(*s) == Some(b@),
            Err(_) => state_msgpack(*s) is None,
        },
{
    rmp_serde::to_vec(s)
}

/// What one pull from the cursor gave.
pub enum Pulled<'a> {
    /// A packet decoded. The caller applies it to the accumulator and then
    /// reports `Event::Decoded` with the tick, or `Event::Rejected`.
    Packet(Packet<'a>),
    /// The stream ended, or a packet failed to decode. The machine has
    /// already taken `event` in and asks for `action`; for a fault,
    /// `message` describes it.
    Handled { event: Event, action: Action, message: String },
}

/// Says what the cursor's answer means for the run: a decoded packet is
/// handed out with the machine untouched; the end of the stream and a decode
/// fault go into the machine at once.
pub fn classify<'a>(machine: &mut Ingest, pulled: Result<Option<Packet<'a>>, ParseError>) -> (r:
    Pulled<'a>)
    requires
        old(machine).phase == Phase::Running,
    ensures
        match pulled {
            Ok(Some(p)) => r == Pulled::Packet(p) && *final(machine) == *old(machine),
            Ok(None) => r matches Pulled::Handled { event: Event::EndOfStream, action, .. } && (
            *final(machine), action) == next(*old(machine), Event::EndOfStream),
            Err(_) => r matches Pulled::Handled { event: Event::Fault, action, .. } && (
            *final(machine), action) == next(*old(machine), Event::Fault),
        },
{
    match pulled {
        Ok(Some(packet)) => Pulled::Packet(packet),
        Ok(None) => {
            let action = machine.on_event(Event::EndOfStream);
            Pulled::Handled { event: Event::EndOfStream, action, message: String::new() }
        },
        Err(e) => {
            let action = machine.on_event(Event::Fault);
            Pulled::Handled { event: Event::Fault, action, message: describe_fault(&e) }
        },
    }
}

/// Pulls the next packet and classifies it. After a fault the cursor's
/// flags are cleared exactly when the machine asks for a retry.
pub fn pull<'a>(machine: &mut Ingest, stream: &mut RawPacketStream<'a>, state: &ParserState) -> (r:
    Pulled<'a>)
    requires
        old(machine).phase == Phase::Running,
    ensures
        match r {
            Pulled::Packet(_) => *final(machine) == *old(machine),
            Pulled::Handled { event, action, .. } => (event == Event::EndOfStream || event
                == Event::Fault) && (*final(machine), action) == next(*old(machine), event),
        },
{
    let r = classify(machine, next_packet(stream, state));
    if let Pulled::Handled { action, .. } = &r {
        if action.reset_cursor {
            clear_fault_flags(stream);
        }
    }
    r
}

/// The raw-channel record for a packet; a failure to encode is a resource
/// error, as a failure to write would be.
pub fn encode_raw_record(packet: &Packet) -> (r: Result<Vec<u8>, RunError>)
    ensures
        match r {
            Ok(b) => packet_msgpack(*packet) == Some(b@),
            Err(e) => e == RunError::Resource && packet_msgpack(*packet) is None,
        },
{
    match msgpack_packet(packet) {
        Ok(bytes) => Ok(bytes),
        Err(_) => Err(RunError::Resource),
    }
}

/// The state-channel record for a game state; a failure to encode is a
/// resource error, as a failure to write would be.
pub fn encode_state_record(state: &GameState) -> (r: Result<Vec<u8>, RunError>)
    ensures
        match r {
            Ok(b) => state_msgpack(*state) == Some(b@),
            Err(e) => e == RunError::Resource && state_msgpack(*state) is None,
        },
{
    match msgpack_state(state) {
        Ok(bytes) => Ok(bytes),
        Err(_) => Err(RunError::Resource),
    }
}

} // verus!
