use vstd::prelude::*;

use crate::calc_checksum;
use crate::models::Command;
use crate::models::ProtocolError;
use crate::models::UnknownByte;
use crate::spec_checksum;
use crate::spec_pad60;
use crate::spec_sum;

verus! {

/// The mathematical model of a packet: its stored checksum, discriminant,
/// command and 60-byte payload region. The leading magic byte is not part
/// of the model; it is emitted and checked by the wire form alone.
#[verifier::ext_equal]
pub ghost struct PacketView {
    pub checksum: u8,
    pub unknown: UnknownByte,
    pub command: Command,
    pub data: Seq<u8>,
}

/// The atomic unit of communication with the device: a fixed 64-byte wire
/// structure of magic byte, checksum, unknown discriminant, command, and a
/// 60-byte zero-padded payload region.
///
/// A packet is constructed fresh per send with a zeroed payload; the payload
/// is copied in, the checksum computed last, and the packet serialized for
/// the transport collaborator.
#[derive(Debug)]
pub struct Packet {
    checksum: u8,
    unknown: UnknownByte,
    command: Command,
    data: Vec<u8>,
}

impl View for Packet {
    type V = PacketView;

    closed spec fn view(&self) -> PacketView {
        PacketView {
            checksum: self.checksum,
            unknown: self.unknown,
            command: self.command,
            data: self.data@,
        }
    }
}

/// The stored checksum matches the packet's command and payload region.
pub open spec fn spec_checksum_valid(p: PacketView) -> bool {
    p.checksum == spec_checksum(p.command, p.data)
}

/// The 64-byte wire form of a packet, in fixed order:
/// magic(1) | checksum(1) | unknown(1) | command(1) | payload(60).
pub open spec fn spec_wire(p: PacketView) -> Seq<u8> {
    seq![4u8, p.checksum, p.unknown.spec_code(), p.command.spec_code()] + p.data
}

impl Packet {
    /// The payload region always spans exactly 60 bytes.
    pub open spec fn wf(self) -> bool {
        self@.data.len() == 60
    }

    /// A fresh packet: checksum zero, zero-filled payload region.
    pub fn new(unknown: UnknownByte, command: Command) -> (p: Packet)
        ensures
            p.wf(),
            p@ == (PacketView { checksum: 0u8, unknown, command, data: Seq::new(60, |i: int| 0u8) }),
    {
        let mut data: Vec<u8> = Vec::new();
        let mut i: usize = 0;
        while i < 60
            invariant
                i <= 60,
                data@.len() == i,
                forall|j: int| 0 <= j < i ==> data@[j] == 0u8,
            decreases 60 - i,
        {
            data.push(0);
            i = i + 1;
        }
        proof {
            assert(data@ =~= Seq::new(60, |i: int| 0u8));
        }
        Packet { checksum: 0, unknown, command, data }
    }

    /// Copy `new_data` into the payload region left-aligned, zero-padding
    /// the remainder. Rejected if it does not fit; the packet is then left
    /// unchanged. The checksum is not recomputed here.
    pub fn set_payload(&mut self, new_data: &[u8]) -> (r: Result<(), ProtocolError>)
        requires
            old(self).wf(),
        ensures
            final(self).wf(),
            new_data@.len() <= 60 ==> r == Ok::<(), ProtocolError>(()) && final(self)@ == (
            PacketView { data: spec_pad60(new_data@), ..old(self)@ }),
            new_data@.len() > 60 ==> r == Err::<(), ProtocolError>(ProtocolError::PayloadTooLarge)
                && final(self)@ == old(self)@,
    {
        if new_data.len() > 60 {
            return Err(ProtocolError::PayloadTooLarge);
        }
        let mut data: Vec<u8> = Vec::new();
        let mut i: usize = 0;
        while i < new_data.len()
            invariant
                i <= new_data@.len() <= 60,
                data@ =~= new_data@.take(i as int),
            decreases new_data@.len() - i,
        {
            data.push(new_data[i]);
            i = i + 1;
        }
        while data.len() < 60
            invariant
                new_data@.len() <= data@.len() <= 60,
                data@ =~= new_data@ + Seq::new((data@.len() - new_data@.len()) as nat, |i: int| 0u8),
            decreases 60 - data@.len(),
        {
            data.push(0);
        }
        self.data = data;
        proof {
            assert(self@.data =~= spec_pad60(new_data@));
        }
        Ok(())
    }

    /// Recompute and store the checksum from the current command and
    /// payload region. Must be called after the final payload is set and
    /// before serialization; nothing recomputes it on mutation.
    pub fn update_checksum(&mut self)
        requires
            old(self).wf(),
        ensures
            final(self).wf(),
            final(self)@ == (PacketView {
                checksum: spec_checksum(old(self)@.command, old(self)@.data),
                ..old(self)@
            }),
            spec_checksum_valid(final(self)@),
    {
        self.checksum = calc_checksum(self.command, self.data.as_slice());
    }

    /// Recompute the checksum and compare it with the stored one. Fails
    /// with a mismatch error carrying the recomputed (expected) and stored
    /// (actual) values if and only if they differ.
    pub fn verify_checksum(&self) -> (r: Result<(), ProtocolError>)
        ensures
            r == (if spec_checksum_valid(self@) {
                Ok::<(), ProtocolError>(())
            } else {
                Err::<(), ProtocolError>((ProtocolError::ChecksumMismatch {
                    expected: spec_checksum(self@.command, self@.data),
                    actual: self@.checksum,
                }))
            }),
    {
        let calculated = calc_checksum(self.command, self.data.as_slice());
        if calculated == self.checksum {
            Ok(())
        } else {
            Err(ProtocolError::ChecksumMismatch { expected: calculated, actual: self.checksum })
        }
    }

    /// Emit the 64-byte wire form.
    pub fn to_vec(&self) -> (r: Vec<u8>)
        requires
            self.wf(),
        ensures
            r@ == spec_wire(self@),
            r@.len() == 64,
    {
        let mut out: Vec<u8> = Vec::new();
        out.push(0x04);
        out.push(self.checksum);
        out.push(self.unknown.code());
        out.push(self.command.code());
        let mut i: usize = 0;
        while i < self.data.len()
            invariant
                self.wf(),
                i <= 60,
                out@.len() == 4 + i,
                out@ =~= seq![
                    4u8,
                    self@.checksum,
                    self@.unknown.spec_code(),
                    self@.command.spec_code(),
                ] + self@.data.take(i as int),
            decreases self.data@.len() - i,
        {
            out.push(self.data[i]);
            i = i + 1;
        }
        proof {
            assert(self@.data.take(60) =~= self@.data);
            assert(out@ =~= spec_wire(self@));
        }
        out
    }

    /// The stored checksum byte.
    pub fn checksum(&self) -> (r: u8)
        ensures
            r == self@.checksum,
    {
        self.checksum
    }

    /// The unknown discriminant.
    pub fn unknown(&self) -> (r: UnknownByte)
        ensures
            r == self@.unknown,
    {
        self.unknown
    }

    /// The command.
    pub fn command(&self) -> (r: Command)
        ensures
            r == self@.command,
    {
        self.command
    }

    /// The payload region.
    pub fn payload(&self) -> (r: &[u8])
        ensures
            r@ == self@.data,
    {
        self.data.as_slice()
    }

    /// What a 64-byte buffer decodes to, if anything: the magic byte must
    /// be present, and the unknown-discriminant and command bytes must lie
    /// in their closed sets; any other buffer is rejected.
    pub open spec fn spec_parse(s: Seq<u8>) -> Option<PacketView> {
        if s.len() == 64 && s[0] == 4u8 && UnknownByte::spec_from_code(s[2]) is Some
            && Command::spec_from_code(s[3]) is Some {
            Some(PacketView {
                checksum: s[1],
                unknown: UnknownByte::spec_from_code(s[2])->Some_0,
                command: Command::spec_from_code(s[3])->Some_0,
                data: s.subrange(4, 64),
            })
        } else {
            None
        }
    }

    /// Decode a received buffer back into a packet.
    pub fn from_bytes(bytes: &[u8]) -> (r: Option<Packet>)
        ensures
            r matches Some(p) ==> Packet::spec_parse(bytes@) == Some(p@) && p.wf(),
            r is None ==> Packet::spec_parse(bytes@) is None,
    {
        if bytes.len() != 64 {
            return None;
        }
        if bytes[0] != 4 {
            return None;
        }
        let unknown = match UnknownByte::from_code(bytes[2]) {
            Some(u) => u,
            None => {
                return None;
            },
        };
        let command = match Command::from_code(bytes[3]) {
            Some(c) => c,
            None => {
                return None;
            },
        };
        let mut data: Vec<u8> = Vec::new();
        let mut i: usize = 4;
        while i < 64
            invariant
                4 <= i <= 64,
                bytes@.len() == 64,
                data@ =~= bytes@.subrange(4, i as int),
            decreases 64 - i,
        {
            data.push(bytes[i]);
            i = i + 1;
        }
        let p = Packet { checksum: bytes[1], unknown, command, data };
        proof {
            assert(Packet::spec_parse(bytes@) == Some(p@));
        }
        Some(p)
    }
}

/// Framing is lossless: parsing the wire form of any well-formed packet
/// yields it back — the command, discriminant, checksum and payload region
/// all round-trip.
pub proof fn lemma_wire_round_trip(p: PacketView)
    requires
        p.data.len() == 60,
    ensures
        Packet::spec_parse(spec_wire(p)) == Some(p),
{
    let s = spec_wire(p);
    assert(UnknownByte::spec_from_code(p.unknown.spec_code()) == Some(p.unknown));
    assert(Command::spec_from_code(p.command.spec_code()) == Some(p.command));
    assert(s.subrange(4, 64) =~= p.data);
    assert(Packet::spec_parse(s)->Some_0 =~= p);
}

/// Changing one byte of a payload shifts its sum by exactly the
/// difference of the old and new byte.
proof fn lemma_sum_update(s: Seq<u8>, i: int, b: u8)
    requires
        0 <= i < s.len(),
    ensures
        spec_sum(s.update(i, b)) + s[i] == spec_sum(s) + b,
    decreases s.len(),
{
    if i == s.len() - 1 {
        assert(s.update(i, b).drop_last() =~= s.drop_last());
        assert(s.update(i, b).last() == b);
    } else {
        lemma_sum_update(s.drop_last(), i, b);
        assert(s.update(i, b).drop_last() =~= s.drop_last().update(i, b));
        assert(s.update(i, b).last() == s.last());
    }
}

/// Shifting by two different amounts below the modulus gives two
/// different remainders.
proof fn lemma_mod256_shift_injective(x: int, a: int, b: int)
    requires
        0 <= a < 256,
        0 <= b < 256,
        a != b,
    ensures
        (x + a) % 256 != (x + b) % 256,
{
    vstd::arithmetic::div_mod::lemma_fundamental_div_mod(x + a, 256);
    vstd::arithmetic::div_mod::lemma_fundamental_div_mod(x + b, 256);
    if (x + a) % 256 == (x + b) % 256 {
        let qa = (x + a) / 256;
        let qb = (x + b) / 256;
        assert(a - b == 256 * (qa - qb));
        assert(qa == qb) by (nonlinear_arith)
            requires
                a - b == 256 * (qa - qb),
                -256 < a - b < 256,
        {
        }
        assert(false);
    }
}

/// Tampering is detected: flip any single byte of a checksum-valid
/// packet's wire form — except the unknown-discriminant byte, which the
/// checksum by design does not cover — and the result either no longer
/// parses or fails checksum verification.
pub proof fn lemma_corrupted_byte_detected(p: PacketView, i: int, b: u8)
    requires
        p.data.len() == 60,
        spec_checksum_valid(p),
        0 <= i < 64,
        i != 2,
        b != spec_wire(p)[i],
    ensures
        match Packet::spec_parse(spec_wire(p).update(i, b)) {
            Some(q) => !spec_checksum_valid(q),
            None => true,
        },
{
    let s = spec_wire(p);
    let t = s.update(i, b);
    if Packet::spec_parse(t) is Some {
        let q = Packet::spec_parse(t)->Some_0;
        assert(t[0] == 4u8);
        assert(i != 0);
        assert(q.checksum == t[1]);
        assert(q.data =~= t.subrange(4, 64));
        if i == 1 {
            assert(t[3] == p.command.spec_code());
            assert(q.command == p.command);
            assert(q.data =~= p.data);
            assert(q.checksum == b && b != p.checksum);
            assert(spec_checksum(q.command, q.data) == p.checksum);
            assert(!spec_checksum_valid(q));
        } else if i == 3 {
            assert(q.checksum == p.checksum);
            assert(q.data =~= p.data);
            assert(q.command.spec_code() == b);
            assert(p.command.spec_code() != b);
            lemma_mod256_shift_injective(
                spec_sum(p.data) as int,
                p.command.spec_code() as int,
                b as int,
            );
            assert(spec_checksum(q.command, q.data) != spec_checksum(p.command, p.data));
            assert(!spec_checksum_valid(q));
        } else {
            let j = i - 4;
            assert(s[i] == p.data[j]);
            assert(q.checksum == p.checksum);
            assert(q.command == p.command);
            assert(q.data =~= p.data.update(j, b));
            lemma_sum_update(p.data, j, b);
            assert(spec_sum(q.data) + p.data[j] == spec_sum(p.data) + b);
            lemma_mod256_shift_injective(
                spec_sum(p.data) as int - p.data[j] + p.command.spec_code(),
                p.data[j] as int,
                b as int,
            );
            assert(spec_checksum(q.command, q.data) != spec_checksum(p.command, p.data));
            assert(!spec_checksum_valid(q));
        }
    }
}

} // verus!
