//! Thermocouple amplifier frames and the latest temperature reading.
//!
//! The amplifier answers every read with four bytes, most significant first.
//! Bits 31 to 18 of that word count quarter degrees at the thermocouple, bits
//! 15 to 4 count sixteenths of a degree at the cold junction. Temperatures are
//! held in sixteenths of a degree Celsius throughout, so that both fields are
//! exact.

use vstd::prelude::*;

verus! {

/// Sixteenths in one degree Celsius.
pub const SIXTEENTHS_PER_DEGREE: i32 = 16;

/// Sixteenths in one count of the thermocouple field.
pub const SIXTEENTHS_PER_THERMOCOUPLE_COUNT: i32 = 4;

/// Largest thermocouple temperature that a frame can carry.
pub const MAX_THERMOCOUPLE: i32 = 65_532;

/// Largest cold-junction temperature that a frame can carry.
pub const MAX_COLD_JUNCTION: i32 = 4_095;

/// The two temperature fields of one frame, in sixteenths of a degree.
#[derive(Clone, Copy, Debug, PartialEq, Eq, Structural)]
pub struct Frame {
    pub thermocouple: i32,
    pub cold_junction: i32,
}

/// The 32-bit word that four bytes spell, most significant byte first.
pub open spec fn frame_word(bytes: Seq<u8>) -> int {
    bytes[0] * 0x100_0000 + bytes[1] * 0x1_0000 + bytes[2] * 0x100 + bytes[3]
}

/// Bits 31 to 18 of a word.
pub open spec fn thermocouple_count(word: int) -> int {
    word / 0x4_0000
}

/// Bits 15 to 4 of a word.
pub open spec fn cold_junction_count(word: int) -> int {
    (word / 0x10) % 0x1000
}

/// The temperatures that a frame of four bytes carries.
pub open spec fn decoded(bytes: Seq<u8>) -> Frame {
    Frame {
        thermocouple: (SIXTEENTHS_PER_THERMOCOUPLE_COUNT * thermocouple_count(
            frame_word(bytes),
        )) as i32,
        cold_junction: cold_junction_count(frame_word(bytes)) as i32,
    }
}

/// Decodes one frame.
pub fn decode_frame(bytes: &[u8; 4]) -> (frame: Frame)
    ensures
        frame == decoded(bytes@),
        0 <= frame.thermocouple <= MAX_THERMOCOUPLE,
        frame.thermocouple % 4 == 0,
        0 <= frame.cold_junction <= MAX_COLD_JUNCTION,
{
    let b0: u8 = bytes[0];
    let b1: u8 = bytes[1];
    let b2: u8 = bytes[2];
    let b3: u8 = bytes[3];
    let raw_data: u32 = ((b0 as u32) << 24) | ((b1 as u32) << 16) | ((b2 as u32) << 8)
        | (b3 as u32);
    let cold_junction: u32 = (raw_data >> 4) & 0b0000_1111_1111_1111;
    let thermocouple: u32 = (raw_data >> 18) & 0b0011_1111_1111_1111;
    proof {
        assert(raw_data == b0 * 0x100_0000 + b1 * 0x1_0000 + b2 * 0x100 + b3) by (bit_vector)
            requires
                raw_data == (b0 as u32) << 24 | (b1 as u32) << 16 | (b2 as u32) << 8 | b3 as u32,
        ;
        assert(cold_junction == (raw_data / 0x10) % 0x1000 && cold_junction <= 4095)
            by (bit_vector)
            requires
                cold_junction == (raw_data >> 4) & 0b0000_1111_1111_1111,
        ;
        assert(thermocouple == raw_data / 0x4_0000 && thermocouple <= 16383) by (bit_vector)
            requires
                thermocouple == (raw_data >> 18) & 0b0011_1111_1111_1111,
        ;
    }
    Frame {
        thermocouple: thermocouple as i32 * SIXTEENTHS_PER_THERMOCOUPLE_COUNT,
        cold_junction: cold_junction as i32,
    }
}

/// What a `Temperature` holds, as plain numbers.
pub struct Reading {
    /// Last reading that was published, in sixteenths of a degree.
    pub value: int,
    /// Cold junction minus thermocouple in the first frame, in sixteenths.
    pub offset: int,
    /// Whether readings are corrected by `offset`.
    pub apply_offset: bool,
}

impl Reading {
    /// The state after the first frame: the offset is cold junction minus
    /// thermocouple. A failed read leaves the offset as it was.
    pub open spec fn calibrated(self, frame: Option<[u8; 4]>) -> Reading {
        match frame {
            Some(bytes) => Reading {
                offset: decoded(bytes@).cold_junction - decoded(bytes@).thermocouple,
                ..self
            },
            None => self,
        }
    }

    /// The reading that a frame gives: the thermocouple temperature, corrected
    /// by the offset where that is switched on.
    pub open spec fn reading_of(self, bytes: [u8; 4]) -> int {
        if self.apply_offset {
            decoded(bytes@).thermocouple + self.offset
        } else {
            decoded(bytes@).thermocouple as int
        }
    }

    /// The state after one poll of the bus: a frame replaces the reading, a
    /// failed read leaves it as it was.
    pub open spec fn after_read(self, frame: Option<[u8; 4]>) -> Reading {
        match frame {
            Some(bytes) => Reading { value: self.reading_of(bytes), ..self },
            None => self,
        }
    }

    /// The state after a run of polls, first to last.
    pub open spec fn after_reads(self, frames: Seq<Option<[u8; 4]>>) -> Reading
        decreases frames.len(),
    {
        if frames.len() == 0 {
            self
        } else {
            self.after_reads(frames.drop_last()).after_read(frames.last())
        }
    }
}

/// The latest temperature reading and the cold-junction offset measured at
/// start-up.
///
/// One worker writes it and any number read it; whoever shares it between them
/// holds it behind a lock that is taken for one call at a time, so that a
/// reader sees the state between two calls and never the middle of one.
#[derive(Clone, Copy, Debug, PartialEq, Eq)]
pub struct Temperature {
    value: i32,
    offset: i32,
    apply_offset: bool,
}

impl View for Temperature {
    type V = Reading;

    closed spec fn view(&self) -> Reading {
        Reading {
            value: self.value as int,
            offset: self.offset as int,
            apply_offset: self.apply_offset,
        }
    }
}

impl Temperature {
    /// The offset is one that a frame can give.
    #[verifier::type_invariant]
    spec fn offset_fits(self) -> bool {
        -MAX_THERMOCOUPLE <= self.offset <= MAX_COLD_JUNCTION
    }

    /// A reading of `value` with no offset, and no correction of readings.
    pub fn new(value: i32) -> (t: Self)
        ensures
            t@ == (Reading { value: value as int, offset: 0, apply_offset: false }),
    {
        Temperature { value, offset: 0, apply_offset: false }
    }

    /// Switches the correction of readings by the start-up offset on or off.
    pub fn with_offset_applied(self, apply: bool) -> (t: Self)
        ensures
            t@ == (Reading { apply_offset: apply, ..self@ }),
    {
        proof {
            use_type_invariant(&self);
        }
        Temperature { value: self.value, offset: self.offset, apply_offset: apply }
    }

    /// The latest reading, in sixteenths of a degree.
    pub fn current_reading(&self) -> (value: i32)
        ensures
            value == self@.value,
    {
        self.value
    }

    /// The offset measured at start-up, in sixteenths of a degree.
    pub fn offset(&self) -> (offset: i32)
        ensures
            offset == self@.offset,
            -MAX_THERMOCOUPLE <= offset <= MAX_COLD_JUNCTION,
    {
        proof {
            use_type_invariant(self);
        }
        self.offset
    }

    /// Whether readings are corrected by the offset.
    pub fn offset_applied(&self) -> (apply: bool)
        ensures
            apply == self@.apply_offset,
    {
        self.apply_offset
    }

    /// Takes the first frame after start-up, or `None` where the read failed,
    /// and stores the cold-junction offset that it gives.
    pub fn initialize_offset(&mut self, frame: Option<[u8; 4]>)
        ensures
            final(self)@ == old(self)@.calibrated(frame),
    {
        match frame {
            Some(buffer) => {
                let decoded = decode_frame(&buffer);
                self.offset = decoded.cold_junction - decoded.thermocouple;
            },
            None => {},
        }
    }

    /// Takes the frame of one poll, or `None` where the read failed, and
    /// publishes the reading that it gives.
    pub fn read(&mut self, frame: Option<[u8; 4]>)
        ensures
            final(self)@ == old(self)@.after_read(frame),
    {
        proof {
            use_type_invariant(&*self);
        }
        match frame {
            Some(buffer) => {
                let decoded = decode_frame(&buffer);
                let local_offset: i32 = if self.apply_offset {
                    self.offset
                } else {
                    0
                };
                self.value = decoded.thermocouple + local_offset;
            },
            None => {},
        }
    }
}

/// A run of polls leaves the offset and the correction switch alone, and the
/// reading is what the last frame that arrived gives; where none arrived it is
/// the reading from before the run. So a reader sees a reading that was
/// published whole, never a mixture of two.
pub proof fn lemma_reading_is_last_frame(t: Reading, frames: Seq<Option<[u8; 4]>>)
    ensures
        t.after_reads(frames).offset == t.offset,
        t.after_reads(frames).apply_offset == t.apply_offset,
        (forall|i: int| 0 <= i < frames.len() ==> frames[i] is None) ==> t.after_reads(frames).value
            == t.value,
        forall|i: int|
            0 <= i < frames.len() && frames[i] is Some && (forall|j: int|
                i < j < frames.len() ==> frames[j] is None) ==> t.after_reads(frames).value
                == t.reading_of(#[trigger] frames[i].unwrap()),
    decreases frames.len(),
{
    if frames.len() > 0 {
        let earlier = frames.drop_last();
        lemma_reading_is_last_frame(t, earlier);
        assert forall|i: int|
            0 <= i < frames.len() && frames[i] is Some && (forall|j: int|
                i < j < frames.len() ==> frames[j] is None) implies t.after_reads(frames).value
            == t.reading_of(#[trigger] frames[i].unwrap()) by {
            if i < frames.len() - 1 {
                assert(earlier[i] == frames[i]);
            }
        }
    }
}

/// However polls and reads take turns, a read sees the reading from before
/// the first poll or the reading that one of the frames polled so far gives:
/// `frames` are the polls that came before the read.
pub proof fn lemma_read_sees_a_published_value(t: Reading, frames: Seq<Option<[u8; 4]>>)
    ensures
        t.after_reads(frames).value == t.value || exists|i: int|
            0 <= i < frames.len() && frames[i] is Some && t.after_reads(frames).value
                == t.reading_of(#[trigger] frames[i].unwrap()),
    decreases frames.len(),
{
    if frames.len() > 0 {
        let earlier = frames.drop_last();
        lemma_read_sees_a_published_value(t, earlier);
        lemma_reading_is_last_frame(t, earlier);
        let last = frames.len() - 1;
        if frames[last] is Some {
            assert(t.after_reads(frames).value == t.reading_of(frames[last].unwrap()));
        } else if t.after_reads(earlier).value != t.value {
            let i = choose|i: int|
                0 <= i < earlier.len() && earlier[i] is Some && t.after_reads(earlier).value
                    == t.reading_of(#[trigger] earlier[i].unwrap());
            assert(frames[i] == earlier[i]);
        }
    }
}

impl Default for Temperature {
    /// A reading of zero with no offset.
    fn default() -> (t: Self)
        ensures
            t@ == (Reading { value: 0, offset: 0, apply_offset: false }),
    {
        Temperature::new(0)
    }
}

} // verus!
