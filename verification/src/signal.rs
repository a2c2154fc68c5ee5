//! The signal codec: pulse classification, bit/byte packing, the command
//! record, frame assembly and validation, the inversion checksum, and the
//! timing list serialized for transmission.

use vstd::prelude::*;
use crate::consts::{
    FanSpeed, Mode, FLAGS_DEF, STATE_ON, STATE_OFF, TEMP_CODE_OFF, valid_degrees, spec_fan_code,
    fan_code, spec_mode_code, mode_code, spec_temp_code, temp_code, spec_degrees_of_code,
    degrees_of_code,
};

verus! {

/// Nominal duration of a preamble pulse, in microseconds.
pub const DUR_PREAMBLE: u32 = 4400;
/// Nominal duration of a `One` pulse, in microseconds.
pub const DUR_ON: u32 = 1582;
/// Nominal duration of a `Zero` pulse, in microseconds.
pub const DUR_OFF: u32 = 503;
/// Fixed inter-symbol gap, in microseconds.
pub const DUR_WAIT: u32 = 576;
/// Gap between the two repetitions of a transmission, in microseconds.
pub const DUR_REPEAT_GAP: u32 = 5000;

/// Nominal duration of a `One` pulse, in nanoseconds.
pub const DUR_ON_NS: u64 = 1582 * 1000;
/// Nominal duration of a `Zero` pulse, in nanoseconds.
pub const DUR_OFF_NS: u64 = 503 * 1000;

#[derive(Clone, Copy, PartialEq, Eq, Structural, Debug)]
pub enum SignalType {
    Invalid,
    Preamble,
    One,
    Zero,
}

/// One classified infrared interval: its symbolic category and the duration
/// in nanoseconds as measured, or a nominal duration when synthesized.
#[derive(Clone, Copy, PartialEq, Eq, Structural, Debug)]
pub struct Signal {
    pub signal_type: SignalType,
    pub duration: u64,
}

/// The classifier's tolerance bands, all open intervals: durations outside
/// every band are `Invalid`.
pub open spec fn spec_classify(duration: u64) -> SignalType {
    if 350000 < duration < 650000 {
        SignalType::Zero
    } else if 1350000 < duration < 1650000 {
        SignalType::One
    } else if 4000000 < duration < 6000000 {
        SignalType::Preamble
    } else {
        SignalType::Invalid
    }
}

/// A pulse that carries one bit of payload.
pub open spec fn is_bit_type(t: SignalType) -> bool {
    t is One || t is Zero
}

/// The payload bit of a pulse: 1 for `One`, 0 otherwise.
pub open spec fn spec_bit(t: SignalType) -> u8 {
    if t is One {
        1
    } else {
        0
    }
}

/// The nominal pulse transmitted for one payload bit.
pub open spec fn spec_bit_signal(one: bool) -> Signal {
    if one {
        Signal { signal_type: SignalType::One, duration: DUR_ON_NS }
    } else {
        Signal { signal_type: SignalType::Zero, duration: DUR_OFF_NS }
    }
}

impl Signal {
    /// A nominal `One` pulse.
    pub fn one() -> (s: Signal)
        ensures
            s == spec_bit_signal(true),
    {
        Signal { signal_type: SignalType::One, duration: DUR_ON_NS }
    }

    /// A nominal `Zero` pulse.
    pub fn zero() -> (s: Signal)
        ensures
            s == spec_bit_signal(false),
    {
        Signal { signal_type: SignalType::Zero, duration: DUR_OFF_NS }
    }

    /// Classify a measured interval. Total: a duration outside every
    /// tolerance band yields an `Invalid` pulse, never a failure.
    pub fn decode(duration: u64) -> (s: Signal)
        ensures
            s == (Signal { signal_type: spec_classify(duration), duration }),
    {
        if duration > 350000 && duration < 650000 {
            Signal { signal_type: SignalType::Zero, duration }
        } else if duration > 1350000 && duration < 1650000 {
            Signal { signal_type: SignalType::One, duration }
        } else if duration > 4000000 && duration < 6000000 {
            Signal { signal_type: SignalType::Preamble, duration }
        } else {
            Signal { signal_type: SignalType::Invalid, duration }
        }
    }

    /// The payload bit of this pulse. Calling this on a `Preamble` or
    /// `Invalid` pulse is an upstream filtering bug, so it is ruled out by
    /// precondition rather than answered with a wrong bit.
    pub fn bit(&self) -> (b: u8)
        requires
            is_bit_type(self.signal_type),
        ensures
            b == spec_bit(self.signal_type),
    {
        match self.signal_type {
            SignalType::Zero => 0,
            SignalType::One => 1,
            SignalType::Preamble => 0,
            SignalType::Invalid => 0,
        }
    }
}

/// The byte packed from 8 pulses, most significant bit first: the pulse at
/// index 0 carries bit 7, the pulse at index 7 carries bit 0.
pub open spec fn spec_byte(s: Seq<Signal>) -> u8
    recommends
        s.len() == 8,
{
    (spec_bit(s[0].signal_type) << 7) | (spec_bit(s[1].signal_type) << 6) | (spec_bit(
        s[2].signal_type,
    ) << 5) | (spec_bit(s[3].signal_type) << 4) | (spec_bit(s[4].signal_type) << 3) | (spec_bit(
        s[5].signal_type,
    ) << 2) | (spec_bit(s[6].signal_type) << 1) | spec_bit(s[7].signal_type)
}

/// The 8 nominal pulses that transmit one byte, most significant bit first.
pub open spec fn spec_signals_of_byte(b: u8) -> Seq<Signal> {
    seq![
        spec_bit_signal(b & 0x80 != 0),
        spec_bit_signal(b & 0x40 != 0),
        spec_bit_signal(b & 0x20 != 0),
        spec_bit_signal(b & 0x10 != 0),
        spec_bit_signal(b & 0x08 != 0),
        spec_bit_signal(b & 0x04 != 0),
        spec_bit_signal(b & 0x02 != 0),
        spec_bit_signal(b & 0x01 != 0),
    ]
}

/// Every pulse that transmits a byte carries a payload bit.
pub proof fn lemma_signals_of_byte_bits(b: u8)
    ensures
        spec_signals_of_byte(b).len() == 8,
        forall|i: int|
            0 <= i < 8 ==> is_bit_type(#[trigger] spec_signals_of_byte(b)[i].signal_type),
{
}

/// Bit/byte round trip: packing the 8 pulses that transmit a byte gives
/// that byte back, for every byte.
pub proof fn lemma_byte_roundtrip(b: u8)
    ensures
        spec_byte(spec_signals_of_byte(b)) == b,
{
    let s = spec_signals_of_byte(b);
    let c0: u8 = if b & 0x80 != 0 { 1 } else { 0 };
    let c1: u8 = if b & 0x40 != 0 { 1 } else { 0 };
    let c2: u8 = if b & 0x20 != 0 { 1 } else { 0 };
    let c3: u8 = if b & 0x10 != 0 { 1 } else { 0 };
    let c4: u8 = if b & 0x08 != 0 { 1 } else { 0 };
    let c5: u8 = if b & 0x04 != 0 { 1 } else { 0 };
    let c6: u8 = if b & 0x02 != 0 { 1 } else { 0 };
    let c7: u8 = if b & 0x01 != 0 { 1 } else { 0 };
    assert(spec_byte(s) == (c0 << 7) | (c1 << 6) | (c2 << 5) | (c3 << 4) | (c4 << 3) | (c5 << 2)
        | (c6 << 1) | c7);
    assert((c0 << 7) | (c1 << 6) | (c2 << 5) | (c3 << 4) | (c4 << 3) | (c5 << 2) | (c6 << 1) | c7
        == b) by (bit_vector)
        requires
            c0 == (if b & 0x80 != 0 { 1u8 } else { 0u8 }),
            c1 == (if b & 0x40 != 0 { 1u8 } else { 0u8 }),
            c2 == (if b & 0x20 != 0 { 1u8 } else { 0u8 }),
            c3 == (if b & 0x10 != 0 { 1u8 } else { 0u8 }),
            c4 == (if b & 0x08 != 0 { 1u8 } else { 0u8 }),
            c5 == (if b & 0x04 != 0 { 1u8 } else { 0u8 }),
            c6 == (if b & 0x02 != 0 { 1u8 } else { 0u8 }),
            c7 == (if b & 0x01 != 0 { 1u8 } else { 0u8 }),
    ;
}

/// Pack 8 payload pulses into a byte, most significant bit first.
pub fn signal_to_u8(signals: &Vec<Signal>) -> (b: u8)
    requires
        signals@.len() == 8,
        forall|i: int| 0 <= i < 8 ==> is_bit_type(#[trigger] signals@[i].signal_type),
    ensures
        b == spec_byte(signals@),
{
    (signals[0].bit() << 7) | (signals[1].bit() << 6) | (signals[2].bit() << 5) | (
    signals[3].bit() << 4) | (signals[4].bit() << 3) | (signals[5].bit() << 2) | (signals[6].bit()
        << 1) | signals[7].bit()
}

/// Unpack a byte into the 8 nominal pulses that transmit it, most
/// significant bit first.
pub fn signal_from_u8(data: u8) -> (v: Vec<Signal>)
    ensures
        v@ == spec_signals_of_byte(data),
{
    let mut v: Vec<Signal> = Vec::new();
    v.push(if data & 0x80 != 0 { Signal::one() } else { Signal::zero() });
    v.push(if data & 0x40 != 0 { Signal::one() } else { Signal::zero() });
    v.push(if data & 0x20 != 0 { Signal::one() } else { Signal::zero() });
    v.push(if data & 0x10 != 0 { Signal::one() } else { Signal::zero() });
    v.push(if data & 0x08 != 0 { Signal::one() } else { Signal::zero() });
    v.push(if data & 0x04 != 0 { Signal::one() } else { Signal::zero() });
    v.push(if data & 0x02 != 0 { Signal::one() } else { Signal::zero() });
    v.push(if data & 0x01 != 0 { Signal::one() } else { Signal::zero() });
    proof {
        assert(v@ =~= spec_signals_of_byte(data));
    }
    v
}

/// Every pulse in the sequence carries a payload bit.
pub open spec fn all_bit_pulses(s: Seq<Signal>) -> bool {
    forall|i: int| 0 <= i < s.len() ==> is_bit_type(#[trigger] s[i].signal_type)
}

/// The pulses of a capture that carry payload bits, in order: preambles and
/// invalid intervals dropped.
pub open spec fn bit_pulses(s: Seq<Signal>) -> Seq<Signal> {
    s.filter(|x: Signal| is_bit_type(x.signal_type))
}

/// The two repeated 48-pulse transmissions agree bit-for-bit: categories
/// are compared, not raw durations.
pub open spec fn halves_match(s: Seq<Signal>) -> bool
    recommends
        s.len() == 96,
{
    forall|i: int| 0 <= i < 48 ==> s[i].signal_type == #[trigger] s[i + 48].signal_type
}

/// Validate a captured burst and trim it to one canonical 48-pulse frame.
///
/// Keeps only the payload pulses; succeeds exactly when 96 remain and the
/// two 48-pulse halves agree category-for-category, and then returns the
/// first half. Anything else is a malformed capture and yields `None`.
pub fn verify_and_trim(signals: &Vec<Signal>) -> (r: Option<Vec<Signal>>)
    ensures
        r is Some <==> (bit_pulses(signals@).len() == 96 && halves_match(bit_pulses(signals@))),
        r is Some ==> r->Some_0@ == bit_pulses(signals@).subrange(0, 48),
        r is Some ==> r->Some_0@.len() == 48 && all_bit_pulses(r->Some_0@),
{
    let mut kept: Vec<Signal> = Vec::new();
    let mut i: usize = 0;
    while i < signals.len()
        invariant
            i <= signals@.len(),
            kept@ == signals@.take(i as int).filter(|x: Signal| is_bit_type(x.signal_type)),
        decreases signals@.len() - i,
    {
        let s = signals[i];
        if matches!(s.signal_type, SignalType::One | SignalType::Zero) {
            kept.push(s);
        }
        proof {
            reveal(Seq::filter);
            assert(signals@.take(i + 1).drop_last() =~= signals@.take(i as int));
            assert(signals@.take(i + 1).last() == signals@[i as int]);
        }
        i += 1;
    }
    proof {
        assert(signals@.take(signals@.len() as int) =~= signals@);
    }
    if kept.len() != 96 {
        return None;
    }
    let mut j: usize = 0;
    while j < 48
        invariant
            j <= 48,
            kept@.len() == 96,
            kept@ == bit_pulses(signals@),
            forall|k: int| 0 <= k < j ==> kept@[k].signal_type == #[trigger] kept@[k + 48].signal_type,
        decreases 48 - j,
    {
        if kept[j].signal_type != kept[j + 48].signal_type {
            return None;
        }
        j += 1;
    }
    kept.truncate(48);
    proof {
        assert forall|k: int| 0 <= k < 48 implies is_bit_type(
            #[trigger] kept@[k].signal_type,
        ) by {
            signals@.lemma_filter_pred(|x: Signal| is_bit_type(x.signal_type), k);
        }
    }
    Some(kept)
}

/// The byte packed from the `k`-th group of 8 pulses.
pub open spec fn byte_at(s: Seq<Signal>, k: int) -> u8
    recommends
        0 <= k,
        8 * k + 8 <= s.len(),
{
    spec_byte(s.subrange(8 * k, 8 * k + 8))
}

/// Pack the `k`-th group of 8 pulses into a byte.
fn byte_from(signals: &Vec<Signal>, k: usize) -> (b: u8)
    requires
        8 * k + 8 <= signals@.len(),
        all_bit_pulses(signals@),
    ensures
        b == byte_at(signals@, k as int),
{
    let n = signals.len();
    let base = 8 * k;
    assert(base + 8 <= n);
    let b = (signals[base].bit() << 7) | (signals[base + 1].bit() << 6) | (signals[base + 2].bit()
        << 5) | (signals[base + 3].bit() << 4) | (signals[base + 4].bit() << 3) | (signals[base
        + 5].bit() << 2) | (signals[base + 6].bit() << 1) | signals[base + 7].bit();
    proof {
        let sub = signals@.subrange(8 * k as int, 8 * k as int + 8);
        assert(forall|j: int| 0 <= j < 8 ==> sub[j] == signals@[8 * k as int + j]);
    }
    b
}

/// A frame passes the checksum when, byte pair by byte pair, the second
/// byte is the bitwise complement of the first.
pub open spec fn checksum_ok(s: Seq<Signal>) -> bool
    recommends
        s.len() % 8 == 0,
{
    forall|i: int|
        0 <= i < (s.len() as int / 8) / 2 ==> #[trigger] byte_at(s, 2 * i) == !byte_at(s, 2 * i + 1)
}

/// The acceptance gate before a captured frame is trusted: group the pulses
/// into bytes and require every even-indexed byte to be followed by its
/// bitwise complement.
pub fn verify_checksum(signals: &Vec<Signal>) -> (r: bool)
    requires
        signals@.len() % 8 == 0,
        all_bit_pulses(signals@),
    ensures
        r == checksum_ok(signals@),
{
    let n = signals.len();
    let n_pairs = n / 8 / 2;
    let mut i: usize = 0;
    while i < n_pairs
        invariant
            i <= n_pairs,
            n == signals@.len(),
            n_pairs == (signals@.len() as int / 8) / 2,
            signals@.len() % 8 == 0,
            all_bit_pulses(signals@),
            forall|k: int|
                0 <= k < i ==> #[trigger] byte_at(signals@, 2 * k) == !byte_at(signals@, 2 * k
                    + 1),
        decreases n_pairs - i,
    {
        let a = byte_from(signals, 2 * i);
        let b = byte_from(signals, 2 * i + 1);
        if a != !b {
            return false;
        }
        i += 1;
    }
    true
}

/// The wire-level command record: three bytes whose nibbles carry the fan
/// speed and power state, and the mode and temperature code.
#[derive(Clone, Copy, PartialEq, Eq, Structural, Debug)]
pub struct AcCtrl {
    /// Protocol marker byte; always `FLAGS_DEF` on records built here.
    pub flags: u8,
    /// High nibble: fan speed code. Low nibble: power state code.
    pub fan_and_state: u8,
    /// Low nibble: mode code. High nibble: temperature code.
    pub temp_and_mode: u8,
}

/// The user-facing intent a record stands for. The temperature is
/// meaningful only when the unit is on and the mode is not fan-only; it is
/// 0 (the off sentinel) otherwise.
#[derive(Clone, Copy, PartialEq, Eq, Structural, Debug)]
pub struct AcCommand {
    pub on: bool,
    pub mode: Mode,
    pub fan: FanSpeed,
    pub temperature: u8,
}

/// The record a logical command is encoded to. When the unit is off, the
/// fan code and temperature code are forced to their off values; fan-only
/// mode keeps the `Dry` mode code and forces the off temperature code.
pub open spec fn spec_encode(temp: u8, fan: FanSpeed, mode: Mode, on: bool) -> AcCtrl {
    AcCtrl {
        flags: FLAGS_DEF,
        fan_and_state: ((if on {
            spec_fan_code(fan)
        } else {
            spec_fan_code(FanSpeed::Off)
        }) << 4) | (if on {
            STATE_ON
        } else {
            STATE_OFF
        }),
        temp_and_mode: spec_mode_code(mode) | ((if on {
            if mode is Fan {
                TEMP_CODE_OFF
            } else {
                spec_temp_code(temp)
            }
        } else {
            TEMP_CODE_OFF
        }) << 4),
    }
}

/// The 48-pulse transmission frame of a record: each byte immediately
/// followed by its bitwise complement, in record-byte order.
pub open spec fn spec_frame(c: AcCtrl) -> Seq<Signal> {
    spec_signals_of_byte(c.flags) + spec_signals_of_byte(!c.flags) + spec_signals_of_byte(
        c.fan_and_state,
    ) + spec_signals_of_byte(!c.fan_and_state) + spec_signals_of_byte(c.temp_and_mode)
        + spec_signals_of_byte(!c.temp_and_mode)
}

/// The logical command a record decodes to, or `None` when a nibble holds a
/// code outside the protocol's tables. Applies the same convention as the
/// encoder: a `Dry` mode code with the off temperature code reports
/// fan-only mode.
pub open spec fn spec_decode(c: AcCtrl) -> Option<AcCommand> {
    let fan_c = c.fan_and_state >> 4;
    let state_c = c.fan_and_state & 0xF;
    let mode_c = c.temp_and_mode & 0xF;
    let temp_c = c.temp_and_mode >> 4;
    if spec_fan_of_code(fan_c) is Some && spec_mode_of_code(mode_c) is Some
        && spec_degrees_of_code(temp_c) is Some && (state_c == STATE_ON || state_c == STATE_OFF) {
        let mode0 = spec_mode_of_code(mode_c)->Some_0;
        Some(
            AcCommand {
                on: state_c == STATE_ON,
                mode: if mode0 is Dry && temp_c == TEMP_CODE_OFF {
                    Mode::Fan
                } else {
                    mode0
                },
                fan: spec_fan_of_code(fan_c)->Some_0,
                temperature: spec_degrees_of_code(temp_c)->Some_0,
            },
        )
    } else {
        None
    }
}

/// The fan speed a 4-bit code stands for, or `None` for an unmapped code.
pub open spec fn spec_fan_of_code(c: u8) -> Option<FanSpeed> {
    if c == 0b1011 {
        Some(FanSpeed::Auto)
    } else if c == 0b1001 {
        Some(FanSpeed::Low)
    } else if c == 0b0101 {
        Some(FanSpeed::Medium)
    } else if c == 0b0011 {
        Some(FanSpeed::High)
    } else if c == 0b0111 {
        Some(FanSpeed::Off)
    } else {
        None
    }
}

/// The mode a 4-bit code stands for, or `None` for an unmapped code. Never
/// reports fan-only: that is decided by the temperature code.
pub open spec fn spec_mode_of_code(c: u8) -> Option<Mode> {
    if c == 0b0000 {
        Some(Mode::Cool)
    } else if c == 0b1100 {
        Some(Mode::Heat)
    } else if c == 0b0100 {
        Some(Mode::Dry)
    } else if c == 0b1000 {
        Some(Mode::Auto)
    } else {
        None
    }
}

impl AcCtrl {
    /// Build the record for a logical command.
    pub fn new(temp: u8, fan: FanSpeed, mode: Mode, on: bool) -> (c: AcCtrl)
        requires
            on && !(mode is Fan) ==> valid_degrees(temp),
        ensures
            c == spec_encode(temp, fan, mode, on),
    {
        let fan_nibble = if on {
            fan_code(fan)
        } else {
            fan_code(FanSpeed::Off)
        };
        let state_nibble = if on {
            STATE_ON
        } else {
            STATE_OFF
        };
        let temp_nibble = if on {
            if matches!(mode, Mode::Fan) {
                TEMP_CODE_OFF
            } else {
                temp_code(temp)
            }
        } else {
            TEMP_CODE_OFF
        };
        AcCtrl {
            flags: FLAGS_DEF,
            fan_and_state: (fan_nibble << 4) | state_nibble,
            temp_and_mode: mode_code(mode) | (temp_nibble << 4),
        }
    }

    /// Read a record back from a clean capture: either only the 24
    /// non-inverted pulses, or a full 48-pulse frame, from which every
    /// other byte (the non-inverted copies) is taken.
    pub fn from_signals(signals: &Vec<Signal>) -> (c: AcCtrl)
        requires
            signals@.len() == 24 || signals@.len() == 48,
            all_bit_pulses(signals@),
        ensures
            signals@.len() == 24 ==> c == (AcCtrl {
                flags: byte_at(signals@, 0),
                fan_and_state: byte_at(signals@, 1),
                temp_and_mode: byte_at(signals@, 2),
            }),
            signals@.len() == 48 ==> c == (AcCtrl {
                flags: byte_at(signals@, 0),
                fan_and_state: byte_at(signals@, 2),
                temp_and_mode: byte_at(signals@, 4),
            }),
    {
        if signals.len() == 48 {
            AcCtrl {
                flags: byte_from(signals, 0),
                fan_and_state: byte_from(signals, 2),
                temp_and_mode: byte_from(signals, 4),
            }
        } else {
            AcCtrl {
                flags: byte_from(signals, 0),
                fan_and_state: byte_from(signals, 1),
                temp_and_mode: byte_from(signals, 2),
            }
        }
    }

    /// Assemble the 48-pulse transmission frame of this record.
    pub fn to_signals(&self) -> (v: Vec<Signal>)
        ensures
            v@ == spec_frame(*self),
            v@.len() == 48,
    {
        let mut v = signal_from_u8(self.flags);
        let mut part = signal_from_u8(!self.flags);
        v.append(&mut part);
        let mut part = signal_from_u8(self.fan_and_state);
        v.append(&mut part);
        let mut part = signal_from_u8(!self.fan_and_state);
        v.append(&mut part);
        let mut part = signal_from_u8(self.temp_and_mode);
        v.append(&mut part);
        let mut part = signal_from_u8(!self.temp_and_mode);
        v.append(&mut part);
        proof {
            assert(v@ =~= spec_frame(*self));
        }
        v
    }

    /// Decode this record to the logical command it stands for.
    pub fn decode(&self) -> (r: Option<AcCommand>)
        ensures
            r == spec_decode(*self),
    {
        let fan_c = self.fan_and_state >> 4;
        let state_c = self.fan_and_state & 0xF;
        let mode_c = self.temp_and_mode & 0xF;
        let temp_c = self.temp_and_mode >> 4;
        let fan = fan_of_code(fan_c);
        let mode = mode_of_code(mode_c);
        let deg = degrees_of_code(temp_c);
        match (fan, mode, deg) {
            (Some(fan), Some(mode0), Some(deg)) => {
                if state_c == STATE_ON || state_c == STATE_OFF {
                    let mode = if matches!(mode0, Mode::Dry) && temp_c == TEMP_CODE_OFF {
                        Mode::Fan
                    } else {
                        mode0
                    };
                    Some(AcCommand { on: state_c == STATE_ON, mode, fan, temperature: deg })
                } else {
                    None
                }
            },
            _ => None,
        }
    }
}

/// The fan speed a 4-bit code stands for.
#[verifier::when_used_as_spec(spec_fan_of_code)]
pub fn fan_of_code(c: u8) -> (f: Option<FanSpeed>)
    ensures
        f == spec_fan_of_code(c),
{
    if c == 0b1011 {
        Some(FanSpeed::Auto)
    } else if c == 0b1001 {
        Some(FanSpeed::Low)
    } else if c == 0b0101 {
        Some(FanSpeed::Medium)
    } else if c == 0b0011 {
        Some(FanSpeed::High)
    } else if c == 0b0111 {
        Some(FanSpeed::Off)
    } else {
        None
    }
}

/// A record's transmission frame is 48 payload pulses whose six bytes are
/// the record's bytes, each followed by its bitwise complement.
pub proof fn lemma_frame_bytes(c: AcCtrl)
    ensures
        spec_frame(c).len() == 48,
        all_bit_pulses(spec_frame(c)),
        byte_at(spec_frame(c), 0) == c.flags,
        byte_at(spec_frame(c), 1) == !c.flags,
        byte_at(spec_frame(c), 2) == c.fan_and_state,
        byte_at(spec_frame(c), 3) == !c.fan_and_state,
        byte_at(spec_frame(c), 4) == c.temp_and_mode,
        byte_at(spec_frame(c), 5) == !c.temp_and_mode,
{
    let f = spec_frame(c);
    assert(f.subrange(0, 8) =~= spec_signals_of_byte(c.flags));
    assert(f.subrange(8, 16) =~= spec_signals_of_byte(!c.flags));
    assert(f.subrange(16, 24) =~= spec_signals_of_byte(c.fan_and_state));
    assert(f.subrange(24, 32) =~= spec_signals_of_byte(!c.fan_and_state));
    assert(f.subrange(32, 40) =~= spec_signals_of_byte(c.temp_and_mode));
    assert(f.subrange(40, 48) =~= spec_signals_of_byte(!c.temp_and_mode));
    lemma_byte_roundtrip(c.flags);
    lemma_byte_roundtrip(!c.flags);
    lemma_byte_roundtrip(c.fan_and_state);
    lemma_byte_roundtrip(!c.fan_and_state);
    lemma_byte_roundtrip(c.temp_and_mode);
    lemma_byte_roundtrip(!c.temp_and_mode);
    assert forall|i: int| 0 <= i < 48 implies is_bit_type(#[trigger] f[i].signal_type) by {
        lemma_signals_of_byte_bits(c.flags);
        lemma_signals_of_byte_bits(!c.flags);
        lemma_signals_of_byte_bits(c.fan_and_state);
        lemma_signals_of_byte_bits(!c.fan_and_state);
        lemma_signals_of_byte_bits(c.temp_and_mode);
        lemma_signals_of_byte_bits(!c.temp_and_mode);
    }
}

/// The checksum always holds for self-generated frames: the frame assembled
/// from any record passes the inversion check.
pub proof fn lemma_frame_checksum(c: AcCtrl)
    ensures
        checksum_ok(spec_frame(c)),
{
    let f = spec_frame(c);
    lemma_frame_bytes(c);
    assert forall|i: int|
        0 <= i < (f.len() as int / 8) / 2 implies #[trigger] byte_at(f, 2 * i) == !byte_at(
        f,
        2 * i + 1,
    ) by {
        let x = byte_at(f, 2 * i);
        let y = byte_at(f, 2 * i + 1);
        assert(y == !x);
        assert(x == !y) by (bit_vector)
            requires
                y == !x,
        ;
    }
}

/// Encode/decode round trip: a command for a powered-on unit in any mode
/// but fan-only, with any fan speed and an in-range temperature, decodes
/// from its own record unchanged.
pub proof fn lemma_encode_decode_roundtrip(temp: u8, fan: FanSpeed, mode: Mode)
    requires
        17 <= temp <= 30,
        !(mode is Fan),
    ensures
        spec_decode(spec_encode(temp, fan, mode, true)) == Some(
            AcCommand { on: true, mode, fan, temperature: temp },
        ),
{
    let c = spec_encode(temp, fan, mode, true);
    let fc = spec_fan_code(fan);
    let tc = spec_temp_code(temp);
    let mc = spec_mode_code(mode);
    let fs = c.fan_and_state;
    let tm = c.temp_and_mode;
    assert(fs >> 4 == fc && fs & 0xF == STATE_ON) by (bit_vector)
        requires
            fs == ((fc << 4) | STATE_ON),
            STATE_ON == 0b1111u8,
            fc < 16,
    ;
    assert(tm & 0xF == mc && tm >> 4 == tc) by (bit_vector)
        requires
            tm == (mc | (tc << 4)),
            mc < 16,
            tc < 16,
    ;
    crate::consts::lemma_temp_code_roundtrip(temp);
}

/// Power-off encoding: when the unit is commanded off, the fan nibble, the
/// state nibble and the temperature code take their off values, whatever
/// the other fields hold.
pub proof fn lemma_off_encoding(temp: u8, fan: FanSpeed, mode: Mode)
    ensures
        spec_encode(temp, fan, mode, false).fan_and_state == ((spec_fan_code(FanSpeed::Off) << 4)
            | STATE_OFF),
        spec_encode(temp, fan, mode, false).fan_and_state >> 4 == spec_fan_code(FanSpeed::Off),
        spec_encode(temp, fan, mode, false).fan_and_state & 0xF == STATE_OFF,
        spec_encode(temp, fan, mode, false).temp_and_mode >> 4 == TEMP_CODE_OFF,
        spec_encode(temp, fan, mode, false).temp_and_mode & 0xF == spec_mode_code(mode),
{
    let fs = spec_encode(temp, fan, mode, false).fan_and_state;
    let tm = spec_encode(temp, fan, mode, false).temp_and_mode;
    let mc = spec_mode_code(mode);
    assert(fs >> 4 == 0b0111u8 && fs & 0xF == STATE_OFF) by (bit_vector)
        requires
            fs == ((0b0111u8 << 4) | STATE_OFF),
            STATE_OFF == 0b1011u8,
    ;
    assert(tm >> 4 == TEMP_CODE_OFF && tm & 0xF == mc) by (bit_vector)
        requires
            tm == (mc | (TEMP_CODE_OFF << 4)),
            TEMP_CODE_OFF == 0b1110u8,
            mc < 16,
    ;
}

/// The durations serialized for one symbol: its nominal mark followed by
/// the fixed inter-symbol gap. A pulse that carries no payload contributes
/// only the gap.
pub open spec fn sym_durations(t: SignalType) -> Seq<u32> {
    match t {
        SignalType::Zero => seq![DUR_OFF, DUR_WAIT],
        SignalType::One => seq![DUR_ON, DUR_WAIT],
        SignalType::Preamble => seq![DUR_WAIT],
        SignalType::Invalid => seq![DUR_WAIT],
    }
}

/// The durations of a pulse sequence's symbols, in order.
pub open spec fn body_durations(s: Seq<Signal>) -> Seq<u32>
    decreases s.len(),
{
    if s.len() == 0 {
        Seq::empty()
    } else {
        body_durations(s.drop_last()) + sym_durations(s.last().signal_type)
    }
}

/// One repetition of a transmission: the double preamble, a gap, then the
/// symbols.
pub open spec fn rep_durations(s: Seq<Signal>) -> Seq<u32> {
    seq![DUR_PREAMBLE, DUR_PREAMBLE, DUR_WAIT] + body_durations(s)
}

/// The full timing list handed to the transmission collaborator: two
/// repetitions of the pulse sequence, separated by one fixed gap.
pub open spec fn transmission_durations(s: Seq<Signal>) -> Seq<u32> {
    rep_durations(s) + seq![DUR_REPEAT_GAP] + rep_durations(s)
}

/// Append one repetition of the pulse sequence's timing to `durs`.
fn append_rep(durs: Vec<u32>, signals: &Vec<Signal>) -> (out: Vec<u32>)
    ensures
        out@ == durs@ + rep_durations(signals@),
{
    let ghost orig = durs@;
    let mut durs = durs;
    durs.push(DUR_PREAMBLE);
    durs.push(DUR_PREAMBLE);
    durs.push(DUR_WAIT);
    proof {
        assert(signals@.take(0) =~= Seq::<Signal>::empty());
        assert(durs@ =~= orig + seq![DUR_PREAMBLE, DUR_PREAMBLE, DUR_WAIT] + body_durations(
            signals@.take(0),
        ));
    }
    let mut i: usize = 0;
    while i < signals.len()
        invariant
            i <= signals@.len(),
            durs@ == orig + seq![DUR_PREAMBLE, DUR_PREAMBLE, DUR_WAIT] + body_durations(
                signals@.take(i as int),
            ),
        decreases signals@.len() - i,
    {
        match signals[i].signal_type {
            SignalType::Zero => durs.push(DUR_OFF),
            SignalType::One => durs.push(DUR_ON),
            SignalType::Preamble => {},
            SignalType::Invalid => {},
        }
        durs.push(DUR_WAIT);
        proof {
            assert(signals@.take(i + 1).drop_last() =~= signals@.take(i as int));
            assert(signals@.take(i + 1).last() == signals@[i as int]);
            assert(durs@ =~= orig + seq![DUR_PREAMBLE, DUR_PREAMBLE, DUR_WAIT] + body_durations(
                signals@.take(i + 1),
            ));
        }
        i += 1;
    }
    proof {
        assert(signals@.take(signals@.len() as int) =~= signals@);
        assert(durs@ =~= orig + rep_durations(signals@));
    }
    durs
}

/// Serialize a pulse sequence into the timing list (microseconds) that the
/// transmission collaborator replays: preamble, symbols and gaps, twice.
pub fn signals_to_durations(signals: &Vec<Signal>) -> (durs: Vec<u32>)
    ensures
        durs@ == transmission_durations(signals@),
{
    let durs: Vec<u32> = Vec::new();
    let mut durs = append_rep(durs, signals);
    durs.push(DUR_REPEAT_GAP);
    let durs = append_rep(durs, signals);
    proof {
        assert(durs@ =~= transmission_durations(signals@));
    }
    durs
}

/// The mode a 4-bit code stands for.
#[verifier::when_used_as_spec(spec_mode_of_code)]
pub fn mode_of_code(c: u8) -> (m: Option<Mode>)
    ensures
        m == spec_mode_of_code(c),
{
    if c == 0b0000 {
        Some(Mode::Cool)
    } else if c == 0b1100 {
        Some(Mode::Heat)
    } else if c == 0b0100 {
        Some(Mode::Dry)
    } else if c == 0b1000 {
        Some(Mode::Auto)
    } else {
        None
    }
}

} // verus!

