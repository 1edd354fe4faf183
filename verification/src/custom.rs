use vstd::prelude::*;

use crate::models::OwnRGB8;
use crate::models::ProtocolError;

verus! {

/// How many keys the keyboard has; the custom-LED state always covers all
/// of them.
pub const TOTAL_KEYS: usize = 126;

/// How many color bytes fit into one chunk: a 64-byte packet minus the
/// 4-byte packet header minus the 4-byte chunk sub-header.
pub const CHUNK_SIZE: usize = 56;

/// The serialized per-key color buffer: every color's three wire bytes, in
/// key-index order.
pub open spec fn spec_led_bytes(leds: Seq<OwnRGB8>) -> Seq<u8>
    decreases leds.len(),
{
    if leds.len() == 0 {
        Seq::empty()
    } else {
        spec_led_bytes(leds.drop_last()) + leds.last().spec_bytes()
    }
}

pub proof fn lemma_led_bytes_len(leds: Seq<OwnRGB8>)
    ensures
        spec_led_bytes(leds).len() == 3 * leds.len(),
    decreases leds.len(),
{
    if leds.len() > 0 {
        lemma_led_bytes_len(leds.drop_last());
    }
}

/// How many chunks a buffer of `n` bytes splits into.
pub open spec fn spec_chunk_count(n: nat) -> nat {
    (n + 55) / 56
}

/// The model of one chunk: its positional metadata and its slice of the
/// serialized color buffer.
#[verifier::ext_equal]
pub ghost struct LedCustomPayloadView {
    pub data_offset: u8,
    pub secondary_keys: u8,
    pub padding: u8,
    pub key_leds_data: Seq<u8>,
}

/// Chunk `i` of a serialized color buffer: the up-to-56-byte slice starting
/// at byte offset `56 * i`, with the low 8 bits of that offset and, since
/// the offset field is a single byte, a flag recording that the true offset
/// exceeds 255.
pub open spec fn spec_chunk(data: Seq<u8>, i: int) -> LedCustomPayloadView {
    let start = 56 * i;
    let end = if data.len() < start + 56 {
        data.len() as int
    } else {
        start + 56
    };
    LedCustomPayloadView {
        data_offset: (start % 256) as u8,
        secondary_keys: if start > 255 {
            1u8
        } else {
            0u8
        },
        padding: 0u8,
        key_leds_data: data.subrange(start, end),
    }
}

/// A wire sub-payload carrying one chunk of the serialized per-key color
/// buffer, produced by splitting the buffer into pieces that fit inside one
/// packet's payload region.
#[derive(Debug)]
pub struct LedCustomPayload {
    data_offset: u8,
    secondary_keys: u8,
    padding: u8,
    key_leds_data: Vec<u8>,
}

impl View for LedCustomPayload {
    type V = LedCustomPayloadView;

    closed spec fn view(&self) -> LedCustomPayloadView {
        LedCustomPayloadView {
            data_offset: self.data_offset,
            secondary_keys: self.secondary_keys,
            padding: self.padding,
            key_leds_data: self.key_leds_data@,
        }
    }
}

impl LedCustomPayload {
    /// A chunk never carries more color bytes than fit into one packet.
    pub open spec fn wf(self) -> bool {
        self@.key_leds_data.len() <= 56
    }

    /// The chunk's wire form: `data_len | data_offset | secondary_keys |
    /// padding | color bytes`.
    pub open spec fn spec_wire(c: LedCustomPayloadView) -> Seq<u8> {
        seq![
            c.key_leds_data.len() as u8,
            c.data_offset,
            c.secondary_keys,
            c.padding,
        ] + c.key_leds_data
    }

    /// Emit the chunk's wire form.
    pub fn to_vec(&self) -> (r: Vec<u8>)
        requires
            self.wf(),
        ensures
            r@ == LedCustomPayload::spec_wire(self@),
    {
        let mut out: Vec<u8> = Vec::new();
        out.push(self.key_leds_data.len() as u8);
        out.push(self.data_offset);
        out.push(self.secondary_keys);
        out.push(self.padding);
        let mut i: usize = 0;
        while i < self.key_leds_data.len()
            invariant
                i <= self.key_leds_data@.len(),
                out@ =~= seq![
                    self@.key_leds_data.len() as u8,
                    self@.data_offset,
                    self@.secondary_keys,
                    self@.padding,
                ] + self@.key_leds_data.take(i as int),
            decreases self.key_leds_data@.len() - i,
        {
            out.push(self.key_leds_data[i]);
            i = i + 1;
        }
        proof {
            assert(self@.key_leds_data.take(self@.key_leds_data.len() as int)
                =~= self@.key_leds_data);
            assert(out@ =~= LedCustomPayload::spec_wire(self@));
        }
        out
    }
}

/// The custom-LED state: one color per physical key position, addressable
/// by index.
#[derive(Debug)]
pub struct CustomKeyLeds {
    key_leds: Vec<OwnRGB8>,
}

impl View for CustomKeyLeds {
    type V = Seq<OwnRGB8>;

    closed spec fn view(&self) -> Seq<OwnRGB8> {
        self.key_leds@
    }
}

/// The blank custom-LED state: all 126 keys off.
pub open spec fn spec_blank_leds() -> Seq<OwnRGB8> {
    Seq::new(126, |i: int| OwnRGB8 { r: 0u8, g: 0u8, b: 0u8 })
}

impl CustomKeyLeds {
    /// The state always covers exactly all 126 keys.
    pub open spec fn wf(self) -> bool {
        self@.len() == 126
    }

    /// A blank state: every key off.
    pub fn new() -> (r: CustomKeyLeds)
        ensures
            r.wf(),
            r@ == spec_blank_leds(),
    {
        let mut key_leds: Vec<OwnRGB8> = Vec::new();
        let mut i: usize = 0;
        while i < TOTAL_KEYS
            invariant
                i <= 126,
                key_leds@.len() == i,
                forall|j: int| 0 <= j < i ==> key_leds@[j] == (OwnRGB8 { r: 0u8, g: 0u8, b: 0u8 }),
            decreases 126 - i,
        {
            key_leds.push(OwnRGB8::new(0, 0, 0));
            i = i + 1;
        }
        let r = CustomKeyLeds { key_leds };
        proof {
            assert(r@ =~= spec_blank_leds());
        }
        r
    }

    /// Build a state from a caller-supplied list, one color per key in
    /// index order. A list with more entries than keys is rejected; a
    /// shorter list is accepted, and the remaining keys are set to off.
    pub fn from_leds(key_leds: Vec<OwnRGB8>) -> (r: Result<CustomKeyLeds, ProtocolError>)
        ensures
            key_leds@.len() > 126 ==> r == Err::<CustomKeyLeds, ProtocolError>(
                ProtocolError::TooManyKeys,
            ),
            key_leds@.len() <= 126 ==> (r matches Ok(s) && s.wf() && s@ == key_leds@ + Seq::new(
                (126 - key_leds@.len()) as nat,
                |i: int| OwnRGB8 { r: 0u8, g: 0u8, b: 0u8 },
            )),
    {
        if key_leds.len() > TOTAL_KEYS {
            return Err(ProtocolError::TooManyKeys);
        }
        let mut key_leds = key_leds;
        let ghost supplied = key_leds@;
        while key_leds.len() < TOTAL_KEYS
            invariant
                supplied.len() <= key_leds@.len() <= 126,
                key_leds@ =~= supplied + Seq::new(
                    (key_leds@.len() - supplied.len()) as nat,
                    |i: int| OwnRGB8 { r: 0u8, g: 0u8, b: 0u8 },
                ),
            decreases 126 - key_leds@.len(),
        {
            key_leds.push(OwnRGB8::new(0, 0, 0));
        }
        Ok(CustomKeyLeds { key_leds })
    }

    /// Set the color of one key. An index at or beyond the number of keys
    /// is rejected, and the state is left unchanged.
    pub fn set_led(&mut self, key_index: usize, key: OwnRGB8) -> (r: Result<(), ProtocolError>)
        requires
            old(self).wf(),
        ensures
            final(self).wf(),
            key_index < 126 ==> r == Ok::<(), ProtocolError>(()) && final(self)@ == old(
                self,
            )@.update(key_index as int, key),
            key_index >= 126 ==> r == Err::<(), ProtocolError>(ProtocolError::KeyIndexOutOfBounds)
                && final(self)@ == old(self)@,
    {
        if key_index >= self.key_leds.len() {
            return Err(ProtocolError::KeyIndexOutOfBounds);
        }
        self.key_leds[key_index] = key;
        Ok(())
    }

    /// Serialize all key colors in index order into one flat byte buffer,
    /// three bytes per key.
    pub fn to_vec(&self) -> (r: Vec<u8>)
        ensures
            r@ == spec_led_bytes(self@),
    {
        let mut out: Vec<u8> = Vec::new();
        let mut i: usize = 0;
        while i < self.key_leds.len()
            invariant
                i <= self.key_leds@.len(),
                out@ =~= spec_led_bytes(self@.take(i as int)),
            decreases self.key_leds@.len() - i,
        {
            proof {
                assert(self@.take(i + 1).drop_last() =~= self@.take(i as int));
                assert(self@.take(i + 1).last() == self@[i as int]);
            }
            let c = self.key_leds[i];
            out.push(c.r);
            out.push(c.g);
            out.push(c.b);
            i = i + 1;
        }
        proof {
            assert(self@.take(self@.len() as int) =~= self@);
        }
        out
    }

    /// Split the serialized 378-byte color buffer into chunks that fit
    /// inside one packet's payload region, in index order: chunk `i` starts
    /// at byte offset `56 * i` and carries up to 56 bytes.
    pub fn get_payloads(self) -> (r: Result<Vec<LedCustomPayload>, ProtocolError>)
        requires
            self.wf(),
        ensures
            r is Ok,
            r->Ok_0@.len() == spec_chunk_count(spec_led_bytes(self@).len()),
            forall|i: int|
                0 <= i < r->Ok_0@.len() ==> (#[trigger] r->Ok_0@[i])@ == spec_chunk(
                    spec_led_bytes(self@),
                    i,
                ) && r->Ok_0@[i].wf(),
    {
        proof {
            lemma_led_bytes_len(self@);
        }
        let key_data = self.to_vec();
        let ghost data = key_data@;
        let n = key_data.len();
        let chunks = (n + 55) / CHUNK_SIZE;
        let mut result: Vec<LedCustomPayload> = Vec::new();
        let mut i: usize = 0;
        while i < chunks
            invariant
                data == key_data@,
                data.len() == n == 378,
                chunks == spec_chunk_count(n as nat) == 7,
                i <= chunks,
                result@.len() == i,
                forall|j: int|
                    0 <= j < i ==> (#[trigger] result@[j])@ == spec_chunk(data, j)
                        && result@[j].wf(),
            decreases chunks - i,
        {
            let start = i * CHUNK_SIZE;
            let end = if start + CHUNK_SIZE <= n {
                start + CHUNK_SIZE
            } else {
                n
            };
            let mut chunk: Vec<u8> = Vec::new();
            let mut j: usize = start;
            while j < end
                invariant
                    start <= j <= end <= n,
                    data == key_data@,
                    data.len() == n,
                    chunk@ =~= data.subrange(start as int, j as int),
                decreases end - j,
            {
                chunk.push(key_data[j]);
                j = j + 1;
            }
            let payload = LedCustomPayload {
                data_offset: (start % 256) as u8,
                secondary_keys: if start > 255 {
                    1
                } else {
                    0
                },
                padding: 0x00,
                key_leds_data: chunk,
            };
            proof {
                assert(payload@ =~= spec_chunk(data, i as int));
            }
            result.push(payload);
            i = i + 1;
        }
        Ok(result)
    }
}

/// Reassembling the chunks gives back the whole buffer: the pieces carried
/// by chunks `0 .. count` concatenated in index order equal the serialized
/// color buffer, so no byte is lost, duplicated or reordered by chunking.
pub open spec fn spec_chunks_data(data: Seq<u8>, k: int) -> Seq<u8>
    decreases k,
{
    if k <= 0 {
        Seq::empty()
    } else {
        spec_chunks_data(data, k - 1) + spec_chunk(data, k - 1).key_leds_data
    }
}

proof fn lemma_chunks_prefix(data: Seq<u8>, k: int)
    requires
        0 <= k,
        56 * (k - 1) < data.len() || k == 0,
    ensures
        spec_chunks_data(data, k) =~= data.take(
            if data.len() < 56 * k {
                data.len() as int
            } else {
                56 * k
            },
        ),
    decreases k,
{
    if k > 0 {
        lemma_chunks_prefix(data, k - 1);
    }
}

/// Chunking loses nothing: the concatenation of all chunk data equals the
/// serialized buffer (hence the data bytes across all chunks total the
/// buffer's length).
pub proof fn lemma_chunks_reassemble(data: Seq<u8>)
    ensures
        spec_chunks_data(data, spec_chunk_count(data.len()) as int) == data,
{
    let n = data.len() as int;
    let k = spec_chunk_count(data.len()) as int;
    assert(56 * k >= n && (k == 0 || 56 * (k - 1) < n)) by {
        vstd::arithmetic::div_mod::lemma_fundamental_div_mod(n + 55, 56);
        vstd::arithmetic::div_mod::lemma_mod_bound(n + 55, 56);
    };
    lemma_chunks_prefix(data, k);
    assert(data.take(n) =~= data);
}

} // verus!
