use vstd::prelude::*;
use vstd::string::*;
use vstd::utf8::is_ascii_chars;

verus! {

/// A character folded to its ASCII lowercase form; everything outside
/// 'A'..='Z' is left as it is.
pub open spec fn spec_lower_char(c: char) -> char {
    if 'A' <= c && c <= 'Z' {
        ((c as u8) + 32) as char
    } else {
        c
    }
}

/// A string folded to its ASCII lowercase form, character by character.
pub open spec fn spec_to_ascii_lower(s: Seq<char>) -> Seq<char> {
    Seq::new(s.len(), |i: int| spec_lower_char(s[i]))
}

/// Case-insensitive equality of a user-supplied string against a canonical
/// lowercase ASCII alias: whether the ASCII-lowercase folding of `s` is
/// exactly `alias`.
fn str_matches_lower(s: &str, alias: &str) -> (r: bool)
    requires
        is_ascii(alias),
    ensures
        r == (spec_to_ascii_lower(s@) == alias@),
{
    broadcast use vstd::string::is_ascii_spec_bytes;

    if !s.is_ascii() {
        proof {
            // some character of s is beyond ASCII; folding keeps it there,
            // while every character of the alias is ASCII
            if spec_to_ascii_lower(s@) == alias@ {
                let i = choose|i: int|
                    !(0 <= i < s@.len() ==> '\0' <= #[trigger] s@[i] <= '\u{7f}');
                assert(spec_to_ascii_lower(s@)[i] == s@[i]);
                assert('\0' <= alias@[i] <= '\u{7f}');
            }
        }
        return false;
    }
    let a = s.as_bytes();
    let b = alias.as_bytes();
    if a.len() != b.len() {
        proof {
            assert(spec_to_ascii_lower(s@).len() != alias@.len());
        }
        return false;
    }
    let n = a.len();
    let mut i: usize = 0;
    while i < n
        invariant
            n == a@.len() == b@.len(),
            a@ == s.spec_bytes(),
            b@ == alias.spec_bytes(),
            is_ascii(s),
            is_ascii(alias),
            s@.len() == alias@.len() == n,
            i <= n,
            forall|j: int| 0 <= j < i ==> spec_lower_char(s@[j]) == alias@[j],
        decreases n - i,
    {
        let mut folded = a[i];
        if 65 <= folded && folded <= 90 {
            folded = folded + 32;
        }
        proof {
            broadcast use vstd::utf8::is_ascii_chars_nat_bound;

            assert('\0' <= s@[i as int] <= '\u{7f}');
            assert('\0' <= alias@[i as int] <= '\u{7f}');
            assert(a@[i as int] == s@[i as int] as u8);
            assert(folded == spec_lower_char(s@[i as int]) as u8);
            assert('\0' <= spec_lower_char(s@[i as int]) <= '\u{7f}');
        }
        if folded != b[i] {
            proof {
                assert(spec_lower_char(s@[i as int]) as u8 != alias@[i as int] as u8);
            }
            return false;
        }
        proof {
            assert(spec_lower_char(s@[i as int]) as u8 == alias@[i as int] as u8);
            assert(spec_lower_char(s@[i as int]) == alias@[i as int]);
        }
        i = i + 1;
    }
    proof {
        assert(spec_to_ascii_lower(s@) =~= alias@);
    }
    true
}

/// Protocol operation codes.
///
/// The `Unknown*` variants were captured from the device and are replayed
/// verbatim; their semantics are reverse-engineered and unverified, but their
/// byte values must be preserved exactly for device compatibility.
#[derive(Clone, Copy, Debug, PartialEq, Eq, Structural)]
pub enum Command {
    TransactionStart,
    TransactionEnd,
    Unknown3,
    Unknown5,
    SetAnimation,
    Unknown7,
    SetCustomLED,
    Unknown1B,
}

impl Command {
    /// The one-byte wire code of this command.
    pub open spec fn spec_code(self) -> u8 {
        match self {
            Command::TransactionStart => 0x01,
            Command::TransactionEnd => 0x02,
            Command::Unknown3 => 0x03,
            Command::Unknown5 => 0x05,
            Command::SetAnimation => 0x06,
            Command::Unknown7 => 0x07,
            Command::SetCustomLED => 0x0B,
            Command::Unknown1B => 0x1B,
        }
    }

    /// Which command a wire byte decodes to; any byte outside the closed set
    /// is rejected rather than mapped to a default.
    pub open spec fn spec_from_code(code: u8) -> Option<Command> {
        if code == 0x01 {
            Some(Command::TransactionStart)
        } else if code == 0x02 {
            Some(Command::TransactionEnd)
        } else if code == 0x03 {
            Some(Command::Unknown3)
        } else if code == 0x05 {
            Some(Command::Unknown5)
        } else if code == 0x06 {
            Some(Command::SetAnimation)
        } else if code == 0x07 {
            Some(Command::Unknown7)
        } else if code == 0x0B {
            Some(Command::SetCustomLED)
        } else if code == 0x1B {
            Some(Command::Unknown1B)
        } else {
            None
        }
    }

    pub fn code(self) -> (r: u8)
        ensures
            r == self.spec_code(),
    {
        match self {
            Command::TransactionStart => 0x01,
            Command::TransactionEnd => 0x02,
            Command::Unknown3 => 0x03,
            Command::Unknown5 => 0x05,
            Command::SetAnimation => 0x06,
            Command::Unknown7 => 0x07,
            Command::SetCustomLED => 0x0B,
            Command::Unknown1B => 0x1B,
        }
    }

    pub fn from_code(code: u8) -> (r: Option<Command>)
        ensures
            r == Command::spec_from_code(code),
    {
        if code == 0x01 {
            Some(Command::TransactionStart)
        } else if code == 0x02 {
            Some(Command::TransactionEnd)
        } else if code == 0x03 {
            Some(Command::Unknown3)
        } else if code == 0x05 {
            Some(Command::Unknown5)
        } else if code == 0x06 {
            Some(Command::SetAnimation)
        } else if code == 0x07 {
            Some(Command::Unknown7)
        } else if code == 0x0B {
            Some(Command::SetCustomLED)
        } else if code == 0x1B {
            Some(Command::Unknown1B)
        } else {
            None
        }
    }
}

/// One packet field whose protocol meaning is undocumented; the caller
/// supplies it per send. Its value space is fixed to 0..=3.
#[derive(Clone, Copy, Debug, PartialEq, Eq, Structural)]
pub enum UnknownByte {
    Zero,
    One,
    Two,
    Three,
}

impl UnknownByte {
    /// The one-byte wire code of this discriminant.
    pub open spec fn spec_code(self) -> u8 {
        match self {
            UnknownByte::Zero => 0,
            UnknownByte::One => 1,
            UnknownByte::Two => 2,
            UnknownByte::Three => 3,
        }
    }

    /// Which discriminant a wire byte decodes to; bytes above 3 are rejected.
    pub open spec fn spec_from_code(code: u8) -> Option<UnknownByte> {
        if code == 0 {
            Some(UnknownByte::Zero)
        } else if code == 1 {
            Some(UnknownByte::One)
        } else if code == 2 {
            Some(UnknownByte::Two)
        } else if code == 3 {
            Some(UnknownByte::Three)
        } else {
            None
        }
    }

    pub fn code(self) -> (r: u8)
        ensures
            r == self.spec_code(),
    {
        match self {
            UnknownByte::Zero => 0,
            UnknownByte::One => 1,
            UnknownByte::Two => 2,
            UnknownByte::Three => 3,
        }
    }

    pub fn from_code(code: u8) -> (r: Option<UnknownByte>)
        ensures
            r == UnknownByte::spec_from_code(code),
    {
        if code == 0 {
            Some(UnknownByte::Zero)
        } else if code == 1 {
            Some(UnknownByte::One)
        } else if code == 2 {
            Some(UnknownByte::Two)
        } else if code == 3 {
            Some(UnknownByte::Three)
        } else {
            None
        }
    }
}

/// LED animation mode.
///
/// Each mode has one fixed wire code and one canonical lowercase alias for
/// user-facing selection. Some modes react to a chosen color, a speed, or
/// both; several were found by probing and are not in official tooling.
#[derive(Clone, Copy, Debug, PartialEq, Eq, Structural)]
pub enum LightingMode {
    Wave,
    Spectrum,
    Breathing,
    Static,
    Radar,
    Vortex,
    Fire,
    Stars,
    Rain,
    Custom,
    Rolling,
    Curve,
    WaveMid,
    Scan,
    Radiation,
    Ripples,
    SingleKey,
}

impl LightingMode {
    /// The one-byte wire code of this mode.
    pub open spec fn spec_code(self) -> u8 {
        match self {
            LightingMode::Wave => 0x00,
            LightingMode::Spectrum => 0x01,
            LightingMode::Breathing => 0x02,
            LightingMode::Static => 0x03,
            LightingMode::Radar => 0x04,
            LightingMode::Vortex => 0x05,
            LightingMode::Fire => 0x06,
            LightingMode::Stars => 0x07,
            LightingMode::Rain => 0x0B,
            LightingMode::Custom => 0x08,
            LightingMode::Rolling => 0x0A,
            LightingMode::Curve => 0x0C,
            LightingMode::WaveMid => 0x0E,
            LightingMode::Scan => 0x0F,
            LightingMode::Radiation => 0x12,
            LightingMode::Ripples => 0x13,
            LightingMode::SingleKey => 0x15,
        }
    }

    pub fn code(self) -> (r: u8)
        ensures
            r == self.spec_code(),
    {
        match self {
            LightingMode::Wave => 0x00,
            LightingMode::Spectrum => 0x01,
            LightingMode::Breathing => 0x02,
            LightingMode::Static => 0x03,
            LightingMode::Radar => 0x04,
            LightingMode::Vortex => 0x05,
            LightingMode::Fire => 0x06,
            LightingMode::Stars => 0x07,
            LightingMode::Rain => 0x0B,
            LightingMode::Custom => 0x08,
            LightingMode::Rolling => 0x0A,
            LightingMode::Curve => 0x0C,
            LightingMode::WaveMid => 0x0E,
            LightingMode::Scan => 0x0F,
            LightingMode::Radiation => 0x12,
            LightingMode::Ripples => 0x13,
            LightingMode::SingleKey => 0x15,
        }
    }

    /// Which mode a canonical lowercase alias selects; anything else is
    /// rejected.
    pub open spec fn spec_from_str(s: Seq<char>) -> Option<LightingMode> {
        if s == "wave"@ {
            Some(LightingMode::Wave)
        } else if s == "spectrum"@ {
            Some(LightingMode::Spectrum)
        } else if s == "breathing"@ {
            Some(LightingMode::Breathing)
        } else if s == "static"@ {
            Some(LightingMode::Static)
        } else if s == "radar"@ {
            Some(LightingMode::Radar)
        } else if s == "vortex"@ {
            Some(LightingMode::Vortex)
        } else if s == "fire"@ {
            Some(LightingMode::Fire)
        } else if s == "stars"@ {
            Some(LightingMode::Stars)
        } else if s == "rain"@ {
            Some(LightingMode::Rain)
        } else if s == "custom"@ {
            Some(LightingMode::Custom)
        } else if s == "rolling"@ {
            Some(LightingMode::Rolling)
        } else if s == "curve"@ {
            Some(LightingMode::Curve)
        } else if s == "wave_mid"@ {
            Some(LightingMode::WaveMid)
        } else if s == "scan"@ {
            Some(LightingMode::Scan)
        } else if s == "radiation"@ {
            Some(LightingMode::Radiation)
        } else if s == "ripples"@ {
            Some(LightingMode::Ripples)
        } else if s == "single_key"@ {
            Some(LightingMode::SingleKey)
        } else {
            None
        }
    }

    /// Select a mode by its alias, matched case-insensitively against the
    /// canonical lowercase form.
    pub fn from_str(s: &str) -> (r: Result<LightingMode, ProtocolError>)
        ensures
            r == (match LightingMode::spec_from_str(spec_to_ascii_lower(s@)) {
                Some(m) => Ok::<LightingMode, ProtocolError>(m),
                None => Err::<LightingMode, ProtocolError>(ProtocolError::InvalidEnumAlias),
            }),
    {
        proof {
            reveal_strlit("wave");
            reveal_strlit("spectrum");
            reveal_strlit("breathing");
            reveal_strlit("static");
            reveal_strlit("radar");
            reveal_strlit("vortex");
            reveal_strlit("fire");
            reveal_strlit("stars");
            reveal_strlit("rain");
            reveal_strlit("custom");
            reveal_strlit("rolling");
            reveal_strlit("curve");
            reveal_strlit("wave_mid");
            reveal_strlit("scan");
            reveal_strlit("radiation");
            reveal_strlit("ripples");
            reveal_strlit("single_key");
        }
        if str_matches_lower(s, "wave") {
            Ok(LightingMode::Wave)
        } else if str_matches_lower(s, "spectrum") {
            Ok(LightingMode::Spectrum)
        } else if str_matches_lower(s, "breathing") {
            Ok(LightingMode::Breathing)
        } else if str_matches_lower(s, "static") {
            Ok(LightingMode::Static)
        } else if str_matches_lower(s, "radar") {
            Ok(LightingMode::Radar)
        } else if str_matches_lower(s, "vortex") {
            Ok(LightingMode::Vortex)
        } else if str_matches_lower(s, "fire") {
            Ok(LightingMode::Fire)
        } else if str_matches_lower(s, "stars") {
            Ok(LightingMode::Stars)
        } else if str_matches_lower(s, "rain") {
            Ok(LightingMode::Rain)
        } else if str_matches_lower(s, "custom") {
            Ok(LightingMode::Custom)
        } else if str_matches_lower(s, "rolling") {
            Ok(LightingMode::Rolling)
        } else if str_matches_lower(s, "curve") {
            Ok(LightingMode::Curve)
        } else if str_matches_lower(s, "wave_mid") {
            Ok(LightingMode::WaveMid)
        } else if str_matches_lower(s, "scan") {
            Ok(LightingMode::Scan)
        } else if str_matches_lower(s, "radiation") {
            Ok(LightingMode::Radiation)
        } else if str_matches_lower(s, "ripples") {
            Ok(LightingMode::Ripples)
        } else if str_matches_lower(s, "single_key") {
            Ok(LightingMode::SingleKey)
        } else {
            Err(ProtocolError::InvalidEnumAlias)
        }
    }
}

/// USB polling rate. Probably controlled at OS / driver level; defined here
/// for completeness' sake.
#[derive(Clone, Copy, Debug, PartialEq, Eq, Structural)]
pub enum UsbPollingRate {
    Low,
    Medium,
    High,
    Full,
}

impl UsbPollingRate {
    /// The one-byte wire code of this polling rate.
    pub open spec fn spec_code(self) -> u8 {
        match self {
            UsbPollingRate::Low => 0,
            UsbPollingRate::Medium => 1,
            UsbPollingRate::High => 2,
            UsbPollingRate::Full => 3,
        }
    }

    pub fn code(self) -> (r: u8)
        ensures
            r == self.spec_code(),
    {
        match self {
            UsbPollingRate::Low => 0,
            UsbPollingRate::Medium => 1,
            UsbPollingRate::High => 2,
            UsbPollingRate::Full => 3,
        }
    }
}

/// LED animation speed.
#[derive(Clone, Copy, Debug, PartialEq, Eq, Structural)]
pub enum Speed {
    VeryFast,
    Fast,
    Medium,
    Slow,
    VerySlow,
}

impl Speed {
    /// The one-byte wire code of this speed.
    pub open spec fn spec_code(self) -> u8 {
        match self {
            Speed::VeryFast => 0,
            Speed::Fast => 1,
            Speed::Medium => 2,
            Speed::Slow => 3,
            Speed::VerySlow => 4,
        }
    }

    pub fn code(self) -> (r: u8)
        ensures
            r == self.spec_code(),
    {
        match self {
            Speed::VeryFast => 0,
            Speed::Fast => 1,
            Speed::Medium => 2,
            Speed::Slow => 3,
            Speed::VerySlow => 4,
        }
    }

    /// Which speed a canonical lowercase alias selects; anything else is
    /// rejected.
    pub open spec fn spec_from_str(s: Seq<char>) -> Option<Speed> {
        if s == "very_slow"@ {
            Some(Speed::VerySlow)
        } else if s == "slow"@ {
            Some(Speed::Slow)
        } else if s == "medium"@ {
            Some(Speed::Medium)
        } else if s == "fast"@ {
            Some(Speed::Fast)
        } else if s == "very_fast"@ {
            Some(Speed::VeryFast)
        } else {
            None
        }
    }

    /// Select a speed by its alias, matched case-insensitively against the
    /// canonical lowercase form.
    pub fn from_str(s: &str) -> (r: Result<Speed, ProtocolError>)
        ensures
            r == (match Speed::spec_from_str(spec_to_ascii_lower(s@)) {
                Some(m) => Ok::<Speed, ProtocolError>(m),
                None => Err::<Speed, ProtocolError>(ProtocolError::InvalidEnumAlias),
            }),
    {
        proof {
            reveal_strlit("very_slow");
            reveal_strlit("slow");
            reveal_strlit("medium");
            reveal_strlit("fast");
            reveal_strlit("very_fast");
        }
        if str_matches_lower(s, "very_slow") {
            Ok(Speed::VerySlow)
        } else if str_matches_lower(s, "slow") {
            Ok(Speed::Slow)
        } else if str_matches_lower(s, "medium") {
            Ok(Speed::Medium)
        } else if str_matches_lower(s, "fast") {
            Ok(Speed::Fast)
        } else if str_matches_lower(s, "very_fast") {
            Ok(Speed::VeryFast)
        } else {
            Err(ProtocolError::InvalidEnumAlias)
        }
    }
}

/// LED brightness.
#[derive(Clone, Copy, Debug, PartialEq, Eq, Structural)]
pub enum Brightness {
    Off,
    Low,
    Medium,
    High,
    Full,
}

impl Brightness {
    /// The one-byte wire code of this brightness.
    pub open spec fn spec_code(self) -> u8 {
        match self {
            Brightness::Off => 0,
            Brightness::Low => 1,
            Brightness::Medium => 2,
            Brightness::High => 3,
            Brightness::Full => 4,
        }
    }

    pub fn code(self) -> (r: u8)
        ensures
            r == self.spec_code(),
    {
        match self {
            Brightness::Off => 0,
            Brightness::Low => 1,
            Brightness::Medium => 2,
            Brightness::High => 3,
            Brightness::Full => 4,
        }
    }

    /// Which brightness a canonical lowercase alias selects; anything else
    /// is rejected.
    pub open spec fn spec_from_str(s: Seq<char>) -> Option<Brightness> {
        if s == "off"@ {
            Some(Brightness::Off)
        } else if s == "low"@ {
            Some(Brightness::Low)
        } else if s == "medium"@ {
            Some(Brightness::Medium)
        } else if s == "high"@ {
            Some(Brightness::High)
        } else if s == "full"@ {
            Some(Brightness::Full)
        } else {
            None
        }
    }

    /// Select a brightness by its alias, matched case-insensitively against
    /// the canonical lowercase form.
    pub fn from_str(s: &str) -> (r: Result<Brightness, ProtocolError>)
        ensures
            r == (match Brightness::spec_from_str(spec_to_ascii_lower(s@)) {
                Some(m) => Ok::<Brightness, ProtocolError>(m),
                None => Err::<Brightness, ProtocolError>(ProtocolError::InvalidEnumAlias),
            }),
    {
        proof {
            reveal_strlit("off");
            reveal_strlit("low");
            reveal_strlit("medium");
            reveal_strlit("high");
            reveal_strlit("full");
        }
        if str_matches_lower(s, "off") {
            Ok(Brightness::Off)
        } else if str_matches_lower(s, "low") {
            Ok(Brightness::Low)
        } else if str_matches_lower(s, "medium") {
            Ok(Brightness::Medium)
        } else if str_matches_lower(s, "high") {
            Ok(Brightness::High)
        } else if str_matches_lower(s, "full") {
            Ok(Brightness::Full)
        } else {
            Err(ProtocolError::InvalidEnumAlias)
        }
    }
}

/// An RGB triple, encoded on the wire in R,G,B byte order. No alpha
/// channel. The default value (0,0,0) means "off".
#[derive(Clone, Copy, Debug, PartialEq, Eq, Structural)]
pub struct OwnRGB8 {
    pub r: u8,
    pub g: u8,
    pub b: u8,
}

impl OwnRGB8 {
    pub fn new(r: u8, g: u8, b: u8) -> (c: OwnRGB8)
        ensures
            c == (OwnRGB8 { r, g, b }),
    {
        OwnRGB8 { r, g, b }
    }

    /// The three wire bytes of this color, in R,G,B order.
    pub open spec fn spec_bytes(self) -> Seq<u8> {
        seq![self.r, self.g, self.b]
    }
}

impl Default for OwnRGB8 {
    /// The "off" color.
    fn default() -> (c: OwnRGB8)
        ensures
            c == (OwnRGB8 { r: 0u8, g: 0u8, b: 0u8 }),
    {
        OwnRGB8 { r: 0, g: 0, b: 0 }
    }
}

/// The 13 payload bytes that select an animation, per the fixed layout:
/// five constant bytes `09 00 00 55 00`, then mode, brightness, speed, one
/// pad byte, the rainbow flag (0 or 1), and the color in R,G,B order.
pub open spec fn spec_animation_bytes(
    mode: LightingMode,
    brightness: Brightness,
    speed: Speed,
    color: OwnRGB8,
    rainbow: bool,
) -> Seq<u8> {
    seq![
        0x09u8,
        0x00u8,
        0x00u8,
        0x55u8,
        0x00u8,
        mode.spec_code(),
        brightness.spec_code(),
        speed.spec_code(),
        0x00u8,
        if rainbow {
            1u8
        } else {
            0u8
        },
        color.r,
        color.g,
        color.b,
    ]
}

/// A lighting-mode configuration as it is carried inside a packet's payload
/// region: a 13-byte structure with fixed field order.
///
/// No invalid state is representable: every combination of the closed
/// enumerations encodes.
#[derive(Clone, Copy, Debug)]
pub struct LedAnimationPayload {
    mode: LightingMode,
    brightness: Brightness,
    speed: Speed,
    rainbow: u8,
    color: OwnRGB8,
}

impl LedAnimationPayload {
    /// The 13 wire bytes this configuration encodes to.
    pub closed spec fn spec_bytes(self) -> Seq<u8> {
        seq![
            0x09u8,
            0x00u8,
            0x00u8,
            0x55u8,
            0x00u8,
            self.mode.spec_code(),
            self.brightness.spec_code(),
            self.speed.spec_code(),
            0x00u8,
            self.rainbow,
            self.color.r,
            self.color.g,
            self.color.b,
        ]
    }

    pub fn new(
        mode: LightingMode,
        brightness: Brightness,
        speed: Speed,
        color: OwnRGB8,
        rainbow: bool,
    ) -> (p: LedAnimationPayload)
        ensures
            p.spec_bytes() == spec_animation_bytes(mode, brightness, speed, color, rainbow),
    {
        let rainbow_byte: u8 = if rainbow {
            1
        } else {
            0
        };
        let p = LedAnimationPayload { mode, brightness, speed, rainbow: rainbow_byte, color };
        proof {
            assert(p.spec_bytes() =~= spec_animation_bytes(mode, brightness, speed, color, rainbow));
        }
        p
    }

    /// Emit the 13-byte wire form.
    pub fn to_vec(&self) -> (r: Vec<u8>)
        ensures
            r@ == self.spec_bytes(),
    {
        let mut out: Vec<u8> = Vec::new();
        out.push(0x09);
        out.push(0x00);
        out.push(0x00);
        out.push(0x55);
        out.push(0x00);
        out.push(self.mode.code());
        out.push(self.brightness.code());
        out.push(self.speed.code());
        out.push(0x00);
        out.push(self.rainbow);
        out.push(self.color.r);
        out.push(self.color.g);
        out.push(self.color.b);
        proof {
            assert(out@ =~= self.spec_bytes());
        }
        out
    }
}

/// Everything that can go wrong inside the protocol layer.
///
/// All variants are recoverable at the caller's discretion; none is treated
/// as fatal here. Encoding errors are reported before any transport call is
/// attempted.
#[derive(Clone, Copy, Debug, PartialEq, Eq, Structural)]
pub enum ProtocolError {
    /// A payload of more than 60 bytes was handed to a packet.
    PayloadTooLarge,
    /// Checksum verification failed; carries the recomputed and stored values.
    ChecksumMismatch { expected: u8, actual: u8 },
    /// A textual alias for a mode, speed or brightness was not recognized.
    InvalidEnumAlias,
    /// A per-key LED index at or beyond the number of keys.
    KeyIndexOutOfBounds,
    /// More key colors than the keyboard has keys.
    TooManyKeys,
    /// Opaque pass-through from the transport collaborator.
    TransportFailure,
}

} // verus!
