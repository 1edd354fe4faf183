//! Protocol core for a USB HID RGB-lighting keyboard.
//!
//! Turns high-level lighting intents (mode, brightness, speed, color,
//! per-key color maps) into fixed-size binary packets: the 64-byte packet
//! envelope with its checksum, the animation-mode payload layout, the
//! per-key color chunking, and the transaction start/end framing. The USB
//! transport itself is an external collaborator and lives outside this
//! crate.

use vstd::prelude::*;

mod custom;
mod models;
mod packet;

pub use custom::CustomKeyLeds;
pub use custom::LedCustomPayload;
pub use custom::LedCustomPayloadView;
pub use custom::lemma_chunks_reassemble;
pub use custom::spec_blank_leds;
pub use custom::spec_chunk;
pub use custom::spec_chunk_count;
pub use custom::spec_chunks_data;
pub use custom::spec_led_bytes;
pub use models::Brightness;
pub use models::Command;
pub use models::LedAnimationPayload;
pub use models::LightingMode;
pub use models::spec_animation_bytes;
pub use models::OwnRGB8;
pub use models::ProtocolError;
pub use models::Speed;
pub use models::UnknownByte;
pub use models::UsbPollingRate;
pub use packet::Packet;
pub use packet::PacketView;
pub use packet::lemma_corrupted_byte_detected;
pub use packet::lemma_wire_round_trip;
pub use packet::spec_checksum_valid;
pub use packet::spec_wire;

verus! {

/// Sum of all bytes of a payload, as an unbounded natural number.
pub open spec fn spec_sum(data: Seq<u8>) -> nat
    decreases data.len(),
{
    if data.len() == 0 {
        0
    } else {
        spec_sum(data.drop_last()) + data.last() as nat
    }
}

/// The packet checksum: the low byte of the sum of all payload bytes plus
/// the command's wire code.
pub open spec fn spec_checksum(command: Command, data: Seq<u8>) -> u8 {
    (((spec_sum(data) + command.spec_code()) as int % 256) as u8)
}

/// A payload as it sits in the 60-byte payload region: left-aligned and
/// right-padded with zero.
pub open spec fn spec_pad60(payload: Seq<u8>) -> Seq<u8>
    recommends
        payload.len() <= 60,
{
    payload + Seq::new((60 - payload.len()) as nat, |i: int| 0u8)
}

/// Calculate packet checksum (index 1 in the packet).
///
/// An empty payload yields the command code's low byte.
pub fn calc_checksum(command: Command, data: &[u8]) -> (r: u8)
    ensures
        r == spec_checksum(command, data@),
{
    let mut sum: u32 = 0;
    let mut i: usize = 0;
    while i < data.len()
        invariant
            i <= data@.len(),
            sum == spec_sum(data@.take(i as int)) as int % 256,
        decreases data@.len() - i,
    {
        proof {
            assert(data@.take(i + 1).drop_last() =~= data@.take(i as int));
            assert(data@.take(i + 1).last() == data@[i as int]);
            vstd::arithmetic::div_mod::lemma_add_mod_noop(
                spec_sum(data@.take(i as int)) as int,
                data@[i as int] as int,
                256,
            );
            vstd::arithmetic::div_mod::lemma_small_mod(data@[i as int] as nat, 256);
        }
        sum = (sum + data[i] as u32) % 256;
        i = i + 1;
    }
    proof {
        assert(data@.take(data@.len() as int) =~= data@);
        vstd::arithmetic::div_mod::lemma_add_mod_noop(
            spec_sum(data@) as int,
            command.spec_code() as int,
            256,
        );
        vstd::arithmetic::div_mod::lemma_small_mod(command.spec_code() as nat, 256);
    }
    ((sum + command.code() as u32) % 256) as u8
}

/// The model of the one packet the library builds for a request: the given
/// discriminant and command, the payload padded into the 60-byte region,
/// and the checksum computed over command and padded payload.
pub open spec fn spec_request(
    unknown: UnknownByte,
    command: Command,
    payload: Seq<u8>,
) -> PacketView
    recommends
        payload.len() <= 60,
{
    PacketView {
        checksum: spec_checksum(command, spec_pad60(payload)),
        unknown,
        command,
        data: spec_pad60(payload),
    }
}

/// Every packet the library builds for a request carries a correct
/// checksum: constructing a packet, setting any payload that fits and
/// recomputing the checksum yields a packet that checksum verification
/// accepts.
pub proof fn lemma_request_checksum_valid(
    unknown: UnknownByte,
    command: Command,
    payload: Seq<u8>,
)
    requires
        payload.len() <= 60,
    ensures
        spec_checksum_valid(spec_request(unknown, command, payload)),
{
}

/// One fully-prepared packet: fresh envelope, payload copied in, checksum
/// stamped last.
fn request_packet(unknown: UnknownByte, command: Command, payload: &[u8]) -> (p: Packet)
    requires
        payload@.len() <= 60,
    ensures
        p.wf(),
        p@ == spec_request(unknown, command, payload@),
{
    let mut packet = Packet::new(unknown, command);
    let r = packet.set_payload(payload);
    proof {
        assert(r is Ok);
    }
    packet.update_checksum();
    proof {
        assert(packet@ =~= spec_request(unknown, command, payload@));
    }
    packet
}

/// Prepend magic, checksum, unknown and command to a payload, giving the
/// 64-byte wire form; fails before any transport call if the payload does
/// not fit.
pub fn prepare_packet(unknown: UnknownByte, command: Command, payload: &[u8]) -> (r: Result<
    Vec<u8>,
    ProtocolError,
>)
    ensures
        payload@.len() <= 60 ==> (r matches Ok(v) && v@ == spec_wire(
            spec_request(unknown, command, payload@),
        ) && v@.len() == 64),
        payload@.len() > 60 ==> r == Err::<Vec<u8>, ProtocolError>(ProtocolError::PayloadTooLarge),
{
    let mut packet = Packet::new(unknown, command);
    match packet.set_payload(payload) {
        Ok(_u) => {},
        Err(e) => {
            return Err(e);
        },
    }
    packet.update_checksum();
    proof {
        assert(packet@ =~= spec_request(unknown, command, payload@));
    }
    Ok(packet.to_vec())
}

/// The marker packet that opens a transaction: discriminant Zero, the
/// transaction-start command, an empty payload.
pub fn start_transaction_packet() -> (p: Packet)
    ensures
        p.wf(),
        p@ == spec_request(UnknownByte::Zero, Command::TransactionStart, Seq::<u8>::empty()),
{
    let empty: Vec<u8> = Vec::new();
    proof {
        assert(empty@ =~= Seq::<u8>::empty());
    }
    request_packet(UnknownByte::Zero, Command::TransactionStart, empty.as_slice())
}

/// The marker packet that closes a transaction: discriminant Zero, the
/// transaction-end command, an empty payload.
pub fn end_transaction_packet() -> (p: Packet)
    ensures
        p.wf(),
        p@ == spec_request(UnknownByte::Zero, Command::TransactionEnd, Seq::<u8>::empty()),
{
    let empty: Vec<u8> = Vec::new();
    proof {
        assert(empty@ =~= Seq::<u8>::empty());
    }
    request_packet(UnknownByte::Zero, Command::TransactionEnd, empty.as_slice())
}

/// A one-byte payload.
fn payload1(a: u8) -> (r: Vec<u8>)
    ensures
        r@ == seq![a],
{
    let mut v: Vec<u8> = Vec::new();
    v.push(a);
    proof {
        assert(v@ =~= seq![a]);
    }
    v
}

/// A two-byte payload.
fn payload2(a: u8, b: u8) -> (r: Vec<u8>)
    ensures
        r@ == seq![a, b],
{
    let mut v: Vec<u8> = Vec::new();
    v.push(a);
    v.push(b);
    proof {
        assert(v@ =~= seq![a, b]);
    }
    v
}

/// A three-byte payload.
fn payload3(a: u8, b: u8, c: u8) -> (r: Vec<u8>)
    ensures
        r@ == seq![a, b, c],
{
    let mut v: Vec<u8> = Vec::new();
    v.push(a);
    v.push(b);
    v.push(c);
    proof {
        assert(v@ =~= seq![a, b, c]);
    }
    v
}

/// The fixed five-byte trailer that must follow every animation-set
/// payload: a verbatim protocol quirk captured from the device, not
/// independently derivable.
pub open spec fn spec_animation_trailer() -> Seq<u8> {
    seq![0x01u8, 0x18u8, 0x00u8, 0x55u8, 0x01u8]
}

/// The packet sequence that applies one animation setting, in send order:
/// transaction start; the 13-byte animation payload under discriminant
/// One; the fixed trailer under discriminant Zero, also under the
/// set-animation command; transaction end.
pub fn set_led_animation_packets(
    mode: LightingMode,
    brightness: Brightness,
    speed: Speed,
    color: OwnRGB8,
    rainbow: bool,
) -> (r: Vec<Packet>)
    ensures
        r@.len() == 4,
        forall|i: int| 0 <= i < 4 ==> (#[trigger] r@[i]).wf(),
        r@[0]@ == spec_request(UnknownByte::Zero, Command::TransactionStart, Seq::<u8>::empty()),
        r@[1]@ == spec_request(
            UnknownByte::One,
            Command::SetAnimation,
            spec_animation_bytes(mode, brightness, speed, color, rainbow),
        ),
        r@[2]@ == spec_request(UnknownByte::Zero, Command::SetAnimation, spec_animation_trailer()),
        r@[3]@ == spec_request(UnknownByte::Zero, Command::TransactionEnd, Seq::<u8>::empty()),
{
    let payload = LedAnimationPayload::new(mode, brightness, speed, color, rainbow).to_vec();
    let mut trailer: Vec<u8> = Vec::new();
    trailer.push(0x01);
    trailer.push(0x18);
    trailer.push(0x00);
    trailer.push(0x55);
    trailer.push(0x01);
    proof {
        assert(trailer@ =~= spec_animation_trailer());
    }
    let mut out: Vec<Packet> = Vec::new();
    out.push(start_transaction_packet());
    out.push(request_packet(UnknownByte::One, Command::SetAnimation, payload.as_slice()));
    out.push(request_packet(UnknownByte::Zero, Command::SetAnimation, trailer.as_slice()));
    out.push(end_transaction_packet());
    out
}

/// The packet sequence that replays the captured device-state fetch, in
/// send order. The byte values were taken 1:1 from a USB capture; their
/// meaning is unknown and they must be reproduced exactly.
pub fn fetch_device_state_packets() -> (r: Vec<Packet>)
    ensures
        r@.len() == 13,
        forall|i: int| 0 <= i < 13 ==> (#[trigger] r@[i]).wf(),
        r@[0]@ == spec_request(UnknownByte::Zero, Command::TransactionStart, Seq::<u8>::empty()),
        r@[1]@ == spec_request(UnknownByte::Zero, Command::Unknown3, seq![0x22u8]),
        r@[2]@ == spec_request(UnknownByte::Zero, Command::Unknown7, seq![0x38u8, 0x00u8]),
        r@[3]@ == spec_request(UnknownByte::Zero, Command::Unknown7, seq![0x38u8, 0x38u8]),
        r@[4]@ == spec_request(UnknownByte::Zero, Command::Unknown7, seq![0x38u8, 0x70u8]),
        r@[5]@ == spec_request(UnknownByte::Zero, Command::Unknown7, seq![0x38u8, 0xA8u8]),
        r@[6]@ == spec_request(UnknownByte::One, Command::Unknown7, seq![0x38u8, 0xE0u8]),
        r@[7]@ == spec_request(UnknownByte::Zero, Command::Unknown7, seq![0x38u8, 0x18u8, 0x01u8]),
        r@[8]@ == spec_request(UnknownByte::Zero, Command::Unknown7, seq![0x2Au8, 0x50u8, 0x01u8]),
        r@[9]@ == spec_request(UnknownByte::Zero, Command::Unknown1B, seq![0x38u8, 0x00u8]),
        r@[10]@ == spec_request(UnknownByte::Zero, Command::Unknown1B, seq![0x38u8, 0x38u8]),
        r@[11]@ == spec_request(UnknownByte::Zero, Command::Unknown1B, seq![0x0Eu8, 0x70u8]),
        r@[12]@ == spec_request(UnknownByte::Zero, Command::TransactionEnd, Seq::<u8>::empty()),
{
    let mut out: Vec<Packet> = Vec::new();
    out.push(start_transaction_packet());
    out.push(request_packet(UnknownByte::Zero, Command::Unknown3, payload1(0x22).as_slice()));
    out.push(
        request_packet(UnknownByte::Zero, Command::Unknown7, payload2(0x38, 0x00).as_slice()),
    );
    out.push(
        request_packet(UnknownByte::Zero, Command::Unknown7, payload2(0x38, 0x38).as_slice()),
    );
    out.push(
        request_packet(UnknownByte::Zero, Command::Unknown7, payload2(0x38, 0x70).as_slice()),
    );
    out.push(
        request_packet(UnknownByte::Zero, Command::Unknown7, payload2(0x38, 0xA8).as_slice()),
    );
    out.push(request_packet(UnknownByte::One, Command::Unknown7, payload2(0x38, 0xE0).as_slice()));
    out.push(
        request_packet(
            UnknownByte::Zero,
            Command::Unknown7,
            payload3(0x38, 0x18, 0x01).as_slice(),
        ),
    );
    out.push(
        request_packet(
            UnknownByte::Zero,
            Command::Unknown7,
            payload3(0x2A, 0x50, 0x01).as_slice(),
        ),
    );
    out.push(
        request_packet(UnknownByte::Zero, Command::Unknown1B, payload2(0x38, 0x00).as_slice()),
    );
    out.push(
        request_packet(UnknownByte::Zero, Command::Unknown1B, payload2(0x38, 0x38).as_slice()),
    );
    out.push(
        request_packet(UnknownByte::Zero, Command::Unknown1B, payload2(0x0E, 0x70).as_slice()),
    );
    out.push(end_transaction_packet());
    out
}

/// The packet sequence that applies a full custom per-key color state, in
/// send order: the four packets that select the custom lighting mode, then
/// a second transaction bracketing one packet per chunk of the serialized
/// color buffer, chunks in index order. All of them must be sent, in
/// order, for one state update.
pub fn set_custom_colors_packets(key_leds: CustomKeyLeds) -> (r: Result<Vec<Packet>, ProtocolError>)
    requires
        key_leds.wf(),
    ensures
        r is Ok,
        r->Ok_0@.len() == 6 + spec_chunk_count(spec_led_bytes(key_leds@).len()),
        forall|i: int| 0 <= i < r->Ok_0@.len() ==> (#[trigger] r->Ok_0@[i]).wf(),
        r->Ok_0@[0]@ == spec_request(
            UnknownByte::Zero,
            Command::TransactionStart,
            Seq::<u8>::empty(),
        ),
        r->Ok_0@[1]@ == spec_request(
            UnknownByte::One,
            Command::SetAnimation,
            spec_animation_bytes(
                LightingMode::Custom,
                Brightness::Full,
                Speed::Slow,
                OwnRGB8 { r: 0u8, g: 0u8, b: 0u8 },
                false,
            ),
        ),
        r->Ok_0@[2]@ == spec_request(
            UnknownByte::Zero,
            Command::SetAnimation,
            spec_animation_trailer(),
        ),
        r->Ok_0@[3]@ == spec_request(UnknownByte::Zero, Command::TransactionEnd, Seq::<u8>::empty()),
        r->Ok_0@[4]@ == spec_request(
            UnknownByte::Zero,
            Command::TransactionStart,
            Seq::<u8>::empty(),
        ),
        forall|i: int|
            0 <= i < spec_chunk_count(spec_led_bytes(key_leds@).len()) ==> #[trigger] r->Ok_0@[5
                + i]@ == spec_request(
                UnknownByte::Zero,
                Command::SetCustomLED,
                LedCustomPayload::spec_wire(spec_chunk(spec_led_bytes(key_leds@), i)),
            ),
        r->Ok_0@[5 + spec_chunk_count(spec_led_bytes(key_leds@).len()) as int]@ == spec_request(
            UnknownByte::Zero,
            Command::TransactionEnd,
            Seq::<u8>::empty(),
        ),
{
    let ghost data = spec_led_bytes(key_leds@);
    let mut out = set_led_animation_packets(
        LightingMode::Custom,
        Brightness::Full,
        Speed::Slow,
        OwnRGB8::new(0, 0, 0),
        false,
    );
    out.push(start_transaction_packet());
    let payloads = key_leds.get_payloads().unwrap();
    let mut idx: usize = 0;
    while idx < payloads.len()
        invariant
            payloads@.len() == spec_chunk_count(data.len()),
            forall|i: int|
                0 <= i < payloads@.len() ==> (#[trigger] payloads@[i])@ == spec_chunk(data, i)
                    && payloads@[i].wf(),
            idx <= payloads@.len(),
            out@.len() == 5 + idx,
            forall|i: int| 0 <= i < out@.len() ==> (#[trigger] out@[i]).wf(),
            out@[0]@ == spec_request(
                UnknownByte::Zero,
                Command::TransactionStart,
                Seq::<u8>::empty(),
            ),
            out@[1]@ == spec_request(
                UnknownByte::One,
                Command::SetAnimation,
                spec_animation_bytes(
                    LightingMode::Custom,
                    Brightness::Full,
                    Speed::Slow,
                    OwnRGB8 { r: 0u8, g: 0u8, b: 0u8 },
                    false,
                ),
            ),
            out@[2]@ == spec_request(
                UnknownByte::Zero,
                Command::SetAnimation,
                spec_animation_trailer(),
            ),
            out@[3]@ == spec_request(UnknownByte::Zero, Command::TransactionEnd, Seq::<u8>::empty()),
            out@[4]@ == spec_request(
                UnknownByte::Zero,
                Command::TransactionStart,
                Seq::<u8>::empty(),
            ),
            forall|i: int|
                0 <= i < idx ==> #[trigger] out@[5 + i]@ == spec_request(
                    UnknownByte::Zero,
                    Command::SetCustomLED,
                    LedCustomPayload::spec_wire(spec_chunk(data, i)),
                ),
        decreases payloads@.len() - idx,
    {
        let wire = payloads[idx].to_vec();
        out.push(request_packet(UnknownByte::Zero, Command::SetCustomLED, wire.as_slice()));
        idx = idx + 1;
    }
    out.push(end_transaction_packet());
    Ok(out)
}

/// The packet sequence that resets every key to the default (off) color,
/// in send order: a full custom-color update with a blank state, then two
/// captured one-byte packets under a command whose meaning is unknown.
pub fn reset_custom_colors_packets() -> (r: Vec<Packet>)
    ensures
        r@.len() == 8 + spec_chunk_count(spec_led_bytes(spec_blank_leds()).len()),
        forall|i: int| 0 <= i < r@.len() ==> (#[trigger] r@[i]).wf(),
        r@[0]@ == spec_request(UnknownByte::Zero, Command::TransactionStart, Seq::<u8>::empty()),
        r@[1]@ == spec_request(
            UnknownByte::One,
            Command::SetAnimation,
            spec_animation_bytes(
                LightingMode::Custom,
                Brightness::Full,
                Speed::Slow,
                OwnRGB8 { r: 0u8, g: 0u8, b: 0u8 },
                false,
            ),
        ),
        r@[2]@ == spec_request(UnknownByte::Zero, Command::SetAnimation, spec_animation_trailer()),
        r@[3]@ == spec_request(UnknownByte::Zero, Command::TransactionEnd, Seq::<u8>::empty()),
        r@[4]@ == spec_request(UnknownByte::Zero, Command::TransactionStart, Seq::<u8>::empty()),
        forall|i: int|
            0 <= i < spec_chunk_count(spec_led_bytes(spec_blank_leds()).len()) ==> #[trigger] r@[5
                + i]@ == spec_request(
                UnknownByte::Zero,
                Command::SetCustomLED,
                LedCustomPayload::spec_wire(spec_chunk(spec_led_bytes(spec_blank_leds()), i)),
            ),
        r@[5 + spec_chunk_count(spec_led_bytes(spec_blank_leds()).len()) as int]@ == spec_request(
            UnknownByte::Zero,
            Command::TransactionEnd,
            Seq::<u8>::empty(),
        ),
        r@[r@.len() - 2]@ == spec_request(UnknownByte::Zero, Command::Unknown5, seq![0x01u8]),
        r@[r@.len() - 1]@ == spec_request(UnknownByte::Zero, Command::Unknown5, seq![0x19u8]),
{
    let blank = CustomKeyLeds::new();
    let mut out = set_custom_colors_packets(blank).unwrap();
    out.push(request_packet(UnknownByte::Zero, Command::Unknown5, payload1(0x01).as_slice()));
    out.push(request_packet(UnknownByte::Zero, Command::Unknown5, payload1(0x19).as_slice()));
    out
}

} // verus!
