//! Pulse encoding for a one-wire addressable RGB LED.
//!
//! One colour becomes a frame of 26 pulse codes: 24 bit pulses (green, red,
//! blue, most significant bit first), one reset pulse and one end marker.

use vstd::prelude::*;

verus! {

/// Number of pulse codes in one frame.
pub const FRAME_LEN: usize = 26;

/// Microseconds that the transmit channel must rest between its configuration
/// and the first frame. Without the rest the line drives every bit high for a
/// short while before the LED turns off; why is not known, so whoever sets
/// the channel up keeps the pause.
pub const CHANNEL_WARMUP_US: u64 = 50;

/// Logic level of the line during one half of a pulse code.
#[derive(Clone, Copy, Debug, PartialEq, Eq, Structural)]
pub enum Level {
    Low,
    High,
}

/// Two consecutive line states, each held for a number of clock ticks.
#[derive(Clone, Copy, Debug, PartialEq, Eq, Structural)]
pub struct PulseCode {
    pub level1: Level,
    pub length1: u16,
    pub level2: Level,
    pub length2: u16,
}

/// One frame, in a buffer of fixed capacity.
pub type PulseFrame = heapless::Vec<PulseCode, 26>;

/// `heapless::Vec`, a vector that keeps up to `N` items in place. Nothing is
/// known of a value of it but what `pulses_of` names.
#[verifier::external_type_specification]
#[verifier::external_body]
#[verifier::reject_recursive_types(T)]
pub struct ExHeaplessVec<T, const N: usize>(heapless::Vec<T, N>);

/// The pulse codes that a frame buffer holds, first to last.
pub uninterp spec fn pulses_of(frame: heapless::Vec<PulseCode, 26>) -> Seq<PulseCode>;

/// `heapless::Vec::new`: a buffer that holds nothing.
#[verifier::external_body]
fn empty_frame() -> (frame: PulseFrame)
    ensures
        pulses_of(frame) == Seq::<PulseCode>::empty(),
{
    heapless::Vec::new()
}

/// What a frame buffer of 26 places holds after a push of `code`.
pub open spec fn after_push(held: Seq<PulseCode>, code: PulseCode) -> Seq<PulseCode> {
    if held.len() < 26 {
        held.push(code)
    } else {
        held
    }
}

/// What a push of `code` into a frame buffer of 26 places returns.
pub open spec fn push_outcome(held: Seq<PulseCode>, code: PulseCode) -> Result<(), PulseCode> {
    if held.len() < 26 {
        Ok(())
    } else {
        Err(code)
    }
}

/// `heapless::Vec::push`: while fewer than 26 codes are held the code is
/// appended behind them; a full buffer stays as it is and hands the code back.
#[verifier::external_body]
fn push_pulse(frame: &mut PulseFrame, code: PulseCode) -> (r: Result<(), PulseCode>)
    ensures
        r == push_outcome(pulses_of(*old(frame)), code),
        pulses_of(*final(frame)) == after_push(pulses_of(*old(frame)), code),
{
    frame.push(code)
}

/// The shape of a data bit: a set bit is a long high followed by a short low,
/// a clear bit a short high followed by a long low.
pub open spec fn bit_pulse(set: bool) -> PulseCode {
    if set {
        PulseCode { level1: Level::High, length1: 14, level2: Level::Low, length2: 12 }
    } else {
        PulseCode { level1: Level::High, length1: 7, level2: Level::Low, length2: 16 }
    }
}

/// The latch pulse that follows the data bits.
pub open spec fn reset_pulse() -> PulseCode {
    PulseCode { level1: Level::Low, length1: 20, level2: Level::Low, length2: 20 }
}

/// The code that ends a transmission: both lengths are zero.
pub open spec fn end_marker() -> PulseCode {
    PulseCode { level1: Level::Low, length1: 0, level2: Level::Low, length2: 0 }
}

/// Whether bit `bit` of `byte` is set, bit 0 being the least significant.
pub open spec fn bit_set(byte: u8, bit: u8) -> bool {
    (byte >> bit) & 1 == 1
}

/// The eight bit pulses of one byte, most significant bit first.
pub open spec fn byte_pulses(byte: u8) -> Seq<PulseCode> {
    Seq::new(8, |i: int| bit_pulse(bit_set(byte, (7 - i) as u8)))
}

/// The frame for a colour: green, red, blue, then reset pulse and end marker.
pub open spec fn frame_pulses(r: u8, g: u8, b: u8) -> Seq<PulseCode> {
    byte_pulses(g) + byte_pulses(r) + byte_pulses(b) + seq![reset_pulse(), end_marker()]
}

impl PulseCode {
    /// The pulse for a data bit.
    pub fn data_bit(set: bool) -> (code: Self)
        ensures
            code == bit_pulse(set),
    {
        if set {
            PulseCode { level1: Level::High, length1: 14, level2: Level::Low, length2: 12 }
        } else {
            PulseCode { level1: Level::High, length1: 7, level2: Level::Low, length2: 16 }
        }
    }

    /// The latch pulse.
    pub fn reset() -> (code: Self)
        ensures
            code == reset_pulse(),
    {
        PulseCode { level1: Level::Low, length1: 20, level2: Level::Low, length2: 20 }
    }

    /// The end marker.
    pub fn end_marker() -> (code: Self)
        ensures
            code == end_marker(),
    {
        PulseCode { level1: Level::Low, length1: 0, level2: Level::Low, length2: 0 }
    }
}

/// Appends the eight bit pulses of `byte` to a frame that has room for them.
fn push_byte(frame: &mut PulseFrame, byte: u8) -> (r: Result<(), PulseCode>)
    requires
        pulses_of(*old(frame)).len() + 8 <= 26,
    ensures
        r is Ok,
        pulses_of(*final(frame)) == pulses_of(*old(frame)) + byte_pulses(byte),
{
    let mut bit: u8 = 8;
    while bit > 0
        invariant
            bit <= 8,
            pulses_of(*old(frame)).len() + 8 <= 26,
            pulses_of(*frame) == pulses_of(*old(frame)) + byte_pulses(byte).take(8 - bit),
        decreases bit,
    {
        bit = bit - 1;
        let code = PulseCode::data_bit(byte >> bit & 1 == 1);
        push_pulse(frame, code)?;
    }
    Ok(())
}

/// Encodes one colour as a frame.
///
/// The result is never an error: a frame has room for exactly the 26 codes
/// that are written.
pub fn rgb_to_pulses(rgb: (u8, u8, u8)) -> (r: Result<PulseFrame, PulseCode>)
    ensures
        r is Ok,
        pulses_of(r.unwrap()) == frame_pulses(rgb.0, rgb.1, rgb.2),
{
    let (r, g, b) = rgb;
    let mut bits = empty_frame();
    push_byte(&mut bits, g)?;
    push_byte(&mut bits, r)?;
    push_byte(&mut bits, b)?;
    push_pulse(&mut bits, PulseCode::reset())?;
    push_pulse(&mut bits, PulseCode::end_marker())?;
    Ok(bits)
}

/// The frame that switches the LED off.
pub fn off() -> (r: Result<PulseFrame, PulseCode>)
    ensures
        r is Ok,
        pulses_of(r.unwrap()) == frame_pulses(0, 0, 0),
{
    rgb_to_pulses((0, 0, 0))
}

/// The frame for full blue, shown while the oven starts up.
pub fn blue_led() -> (r: Result<PulseFrame, PulseCode>)
    ensures
        r is Ok,
        pulses_of(r.unwrap()) == frame_pulses(0, 0, 255),
{
    rgb_to_pulses((0, 0, 255))
}

/// The frame for full red, shown while the heater is on.
pub fn red_led() -> (r: Result<PulseFrame, PulseCode>)
    ensures
        r is Ok,
        pulses_of(r.unwrap()) == frame_pulses(255, 0, 0),
{
    rgb_to_pulses((255, 0, 0))
}

/// The frame for full green, shown once the cooling time has passed.
pub fn green_led() -> (r: Result<PulseFrame, PulseCode>)
    ensures
        r is Ok,
        pulses_of(r.unwrap()) == frame_pulses(0, 255, 0),
{
    rgb_to_pulses((0, 255, 0))
}

/// Entry `i` of the frame for a colour, written out place by place: the
/// first eight are the green byte from bit 7 down to bit 0, the next eight the
/// red byte, the next eight the blue byte, then the reset pulse and the end
/// marker.
pub open spec fn frame_entry(r: u8, g: u8, b: u8, i: int) -> PulseCode {
    if i < 8 {
        bit_pulse(bit_set(g, (7 - i) as u8))
    } else if i < 16 {
        bit_pulse(bit_set(r, (15 - i) as u8))
    } else if i < 24 {
        bit_pulse(bit_set(b, (23 - i) as u8))
    } else if i == 24 {
        reset_pulse()
    } else {
        end_marker()
    }
}

/// Every frame has 26 entries, and entry `i` is `frame_entry` at `i`.
pub proof fn lemma_frame_layout(r: u8, g: u8, b: u8)
    ensures
        frame_pulses(r, g, b).len() == 26,
        forall|i: int|
            0 <= i < 26 ==> #[trigger] frame_pulses(r, g, b)[i] == frame_entry(r, g, b, i),
{
}

/// A frame can be sent as it is: every length fits the 15 bits that a
/// transmit channel has for it, and no code before the last has a length of
/// zero, so the transmission ends at the end marker and not before.
pub proof fn lemma_frame_ends_once(r: u8, g: u8, b: u8)
    ensures
        forall|i: int|
            0 <= i < 26 ==> (#[trigger] frame_pulses(r, g, b)[i]).length1 <= 0x7FFF
                && frame_pulses(r, g, b)[i].length2 <= 0x7FFF,
        forall|i: int|
            0 <= i < 25 ==> (#[trigger] frame_pulses(r, g, b)[i]).length1 > 0
                && frame_pulses(r, g, b)[i].length2 > 0,
        frame_pulses(r, g, b)[25].length1 == 0,
        frame_pulses(r, g, b)[25].length2 == 0,
{
    lemma_frame_layout(r, g, b);
}

} // verus!
