//! The layout of a capture, by byte offsets.
//!
//! This module is the description that the decoders are verified against.
//! It says at which offset of a buffer each field lies, how the derived
//! fields follow from the raw ones, and which failure a buffer that is not
//! a capture is answered with. All integers are little-endian.
//!
//! | offset | length | content                                   |
//! |-------:|-------:|-------------------------------------------|
//! |      0 |      4 | magic tag `a5 a5 00 00`                   |
//! |      4 |     12 | padding                                   |
//! |     16 |      1 | mode of the converter                     |
//! |     17 |      3 | padding                                   |
//! |     20 |      4 | `roll_stop`                               |
//! |     24 |      4 | unused                                    |
//! |     28 |      4 | raw point count of channel 1              |
//! |     32 |      1 | selected channel                          |
//! |     33 |      1 | padding                                   |
//! |     34 |     24 | channel 1                                 |
//! |     58 |     24 | channel 2                                 |
//! |     82 |      1 | time offset, unused                       |
//! |     83 |      1 | padding                                   |
//! |     84 |     36 | time base                                 |
//! |    120 |     22 | logic analyzer                            |
//! |    142 |      1 | trigger mode                              |
//! |    143 |     40 | trigger 1                                 |
//! |    183 |     40 | trigger 2                                 |
//! |    223 |      6 | padding                                   |
//! |    229 |      4 | raw point count of channel 2              |
//! |    233 |     36 | time base of channel 2                    |
//! |    269 |      4 | sample rate of the logic analyzer, unused |
//! |    273 |      3 | padding                                   |
//! |    276 |        | samples                                   |

use vstd::prelude::*;
use crate::codes::{Coupling, Source, TriggerMode, Unit};
use crate::error::{Error, Stage};
use crate::model::{
    Binary32, ChannelHeader, LogicAnalyzerHeader, RawDataView, TimeHeader, TriggerHeader,
    WaveformDataView, WaveformHeader,
};
use crate::wire::{differs, i16_at, i32_at, i64_at, u16_at, u32_at};

verus! {

/// Length of the header; the samples begin at this offset.
pub const HEADER_LEN: usize = 276;

/// The four bytes that every capture begins with.
pub open spec fn magic() -> Seq<u8> {
    seq![0xa5u8, 0xa5u8, 0x00u8, 0x00u8]
}

/// The single-precision number whose little-endian bytes start at `at`.
pub open spec fn binary32_at(s: Seq<u8>, at: int) -> Binary32 {
    Binary32 { bits: u32_at(s, at) as u32 }
}

/// The channel settings whose 24 bytes start at `at`.
///
/// Bytes 0, 1, 8, 9 and 17 of the block are unknown and ignored.
pub open spec fn channel_at(s: Seq<u8>, at: int) -> ChannelHeader {
    ChannelHeader {
        scale_display: i32_at(s, at + 2) as i32,
        shift_display: i16_at(s, at + 6) as i16,
        probe_value: binary32_at(s, at + 10),
        invert_display: s[at + 14],
        enabled: s[at + 15] != 0,
        inverted: s[at + 16] != 0,
        scale_measured: i32_at(s, at + 18) as i32,
        shift_measured: i16_at(s, at + 22) as i16,
        unit: Unit::V,
    }
}

/// The time base whose 36 bytes start at `at`.
pub open spec fn time_at(s: Seq<u8>, at: int) -> TimeHeader {
    TimeHeader {
        scale_display: i64_at(s, at) as i64,
        offset_display: i64_at(s, at + 8) as i64,
        sample_rate_hz: binary32_at(s, at + 16),
        scale_measured: i64_at(s, at + 20) as i64,
        offset_measured: i64_at(s, at + 28) as i64,
    }
}

/// The logic analyzer's settings whose 22 bytes start at `at`.
///
/// Of the first byte only the lowest bit counts.
pub open spec fn logic_at(s: Seq<u8>, at: int) -> LogicAnalyzerHeader {
    LogicAnalyzerHeader {
        enabled: s[at] % 2 == 1,
        active_channel: s[at + 1],
        enabled_channels: u16_at(s, at + 2) as u16,
        position: [
            s[at + 4],
            s[at + 5],
            s[at + 6],
            s[at + 7],
            s[at + 8],
            s[at + 9],
            s[at + 10],
            s[at + 11],
            s[at + 12],
            s[at + 13],
            s[at + 14],
            s[at + 15],
            s[at + 16],
            s[at + 17],
            s[at + 18],
            s[at + 19],
        ],
        group8to15size: s[at + 20],
        group0to7size: s[at + 21],
    }
}

/// The trigger settings whose 40 bytes start at `at`, or the failure of the
/// first of the three codes at their head that names no variant.
///
/// Bytes 4, 19, 20, 26, 27 and 28 of the block are padding.
pub open spec fn trigger_at(s: Seq<u8>, at: int) -> Result<TriggerHeader, Error> {
    match (
        TriggerMode::spec_decode(s[at], at as usize),
        Source::spec_decode(s[at + 1], (at + 1) as usize),
        Coupling::spec_decode(s[at + 2], (at + 2) as usize),
    ) {
        (Err(e), _, _) => Err(e),
        (Ok(_), Err(e), _) => Err(e),
        (Ok(_), Ok(_), Err(e)) => Err(e),
        (Ok(mode), Ok(source), Ok(coupling)) => Ok(
            TriggerHeader {
                mode,
                source,
                coupling,
                sweep: s[at + 3],
                sens: binary32_at(s, at + 5),
                holdoff: binary32_at(s, at + 9),
                level: binary32_at(s, at + 13),
                direct: s[at + 17] != 0,
                pulse_type: s[at + 18],
                pulse_width: binary32_at(s, at + 21),
                slope_type: s[at + 25],
                lower: binary32_at(s, at + 29),
                slope_width: binary32_at(s, at + 33),
                video_pol: s[at + 37],
                video_sync: s[at + 38],
                video_std: s[at + 39],
            },
        ),
    }
}

/// The point count and the skip length of channel 1, from `roll_stop` and
/// the raw point count; `None` where the count would fall below zero.
///
/// A capture that was not taken in rolling mode loses four points and
/// skips nothing. One taken in rolling mode loses `roll_stop + 6` points
/// and skips `roll_stop + 2` bytes.
pub open spec fn corrected_points(roll_stop: u32, raw_points: u32) -> Option<(u32, u32)> {
    if roll_stop == 0 {
        if raw_points >= 4 {
            Some(((raw_points - 4) as u32, 0u32))
        } else {
            None
        }
    } else {
        if raw_points - roll_stop - 6 >= 0 {
            Some(((raw_points - roll_stop - 6) as u32, (roll_stop + 2) as u32))
        } else {
            None
        }
    }
}

/// The point count of channel 2: where the buffer holds none and channel 1
/// is enabled, that of channel 1; else what the buffer holds.
pub open spec fn inferred_points(ch1_enabled: bool, ch1_points: u32, raw_points: u32) -> u32 {
    if ch1_enabled && raw_points == 0 {
        ch1_points
    } else {
        raw_points
    }
}

/// The header that the fields of `s` make, given the corrected point count
/// and skip length of channel 1 and the settings of the two triggers.
pub open spec fn header_with(
    s: Seq<u8>,
    ch1_points: u32,
    ch1_skip: u32,
    trigger1: TriggerHeader,
    trigger2: TriggerHeader,
) -> WaveformHeader {
    WaveformHeader {
        adc_mode: s[16],
        roll_stop: u32_at(s, 20) as u32,
        active_channel: s[32],
        ch1: channel_at(s, 34),
        ch2: channel_at(s, 58),
        time: time_at(s, 84),
        time2: time_at(s, 233),
        trigger1,
        trigger2,
        logic: logic_at(s, 120),
        ch1_points,
        ch1_skip,
        ch2_points: inferred_points(channel_at(s, 34).enabled, ch1_points, u32_at(s, 229) as u32),
    }
}

/// What decoding the header of `s` gives.
///
/// The checks are made in this order, and the first that fails decides:
/// the magic tag; the length up to the end of trigger 1; the codes of
/// trigger 1; the length up to the end of trigger 2; the codes of trigger
/// 2; the length of the header; the rolling-mode correction; the trigger
/// mode at offset 142.
///
/// The tag is compared as far as the buffer reaches: a buffer of fewer
/// than four bytes that agrees with the tag is truncated, one that
/// disagrees is a mismatch.
pub open spec fn header_of(s: Seq<u8>) -> Result<WaveformHeader, Error> {
    if differs(s, magic()) {
        Err(Error::MagicMismatch)
    } else if s.len() < 183 {
        Err(Error::Truncated { stage: Stage::Header })
    } else if let Err(e) = trigger_at(s, 143) {
        Err(e)
    } else if s.len() < 223 {
        Err(Error::Truncated { stage: Stage::Header })
    } else if let Err(e) = trigger_at(s, 183) {
        Err(e)
    } else if s.len() < HEADER_LEN {
        Err(Error::Truncated { stage: Stage::Header })
    } else if corrected_points(u32_at(s, 20) as u32, u32_at(s, 28) as u32) is None {
        Err(Error::ArithmeticUnderflow)
    } else if let Err(e) = TriggerMode::spec_decode(s[142], 142) {
        Err(e)
    } else {
        let (ch1_points, ch1_skip) = corrected_points(
            u32_at(s, 20) as u32,
            u32_at(s, 28) as u32,
        )->0;
        Ok(
            header_with(
                s,
                ch1_points,
                ch1_skip,
                trigger_at(s, 143)->Ok_0,
                trigger_at(s, 183)->Ok_0,
            ),
        )
    }
}

/// Number of bytes that channel 1 takes behind the header: its samples, the
/// bytes to pass over and the sentinel; nothing where it is disabled.
pub open spec fn ch1_span(h: WaveformHeader) -> int {
    if h.ch1.enabled {
        h.ch1_points + h.ch1_skip + 4
    } else {
        0
    }
}

/// Number of bytes that channel 2 takes behind channel 1: its samples, the
/// bytes to pass over and the sentinel; nothing where it is disabled.
///
/// The number of bytes to pass over is that of channel 1.
pub open spec fn ch2_span(h: WaveformHeader) -> int {
    if h.ch2.enabled {
        h.ch2_points + h.ch1_skip + 4
    } else {
        0
    }
}

/// Number of bytes that the logic analyzer takes behind channel 2: two for
/// each sample; nothing where it is disabled.
///
/// The format holds no count of these samples. The decoder takes as many
/// as channel 1 has.
pub open spec fn logic_span(h: WaveformHeader) -> int {
    if h.logic.enabled {
        2 * h.ch1_points
    } else {
        0
    }
}

/// The `count` little-endian 16-bit words that start at `at`.
pub open spec fn words_at(s: Seq<u8>, at: int, count: nat) -> Seq<u16> {
    Seq::new(count, |i: int| u16_at(s, at + 2 * i) as u16)
}

/// The samples of a capture whose sample blocks start at `start`, or the
/// first block that the buffer ends in.
pub open spec fn samples_of(s: Seq<u8>, start: int, h: WaveformHeader) -> Result<
    RawDataView,
    Error,
> {
    let left = s.len() - start;
    let ch2_start = start + ch1_span(h);
    let logic_start = ch2_start + ch2_span(h);
    if left < ch1_span(h) {
        Err(Error::Truncated { stage: Stage::Channel1 })
    } else if left < ch1_span(h) + ch2_span(h) {
        Err(Error::Truncated { stage: Stage::Channel2 })
    } else if left < ch1_span(h) + ch2_span(h) + logic_span(h) {
        Err(Error::Truncated { stage: Stage::Logic })
    } else {
        Ok(
            RawDataView {
                ch1: if h.ch1.enabled {
                    s.subrange(start, start + h.ch1_points)
                } else {
                    Seq::empty()
                },
                ch2: if h.ch2.enabled {
                    s.subrange(ch2_start, ch2_start + h.ch2_points)
                } else {
                    Seq::empty()
                },
                logic: if h.logic.enabled {
                    words_at(s, logic_start, h.ch1_points as nat)
                } else {
                    Seq::empty()
                },
            },
        )
    }
}

/// What decoding `s` gives: its header, and the samples that lie behind
/// the header.
pub open spec fn capture_of(s: Seq<u8>) -> Result<WaveformDataView, Error> {
    match header_of(s) {
        Err(e) => Err(e),
        Ok(header) => match samples_of(s, HEADER_LEN as int, header) {
            Err(e) => Err(e),
            Ok(data) => Ok(WaveformDataView { header, data }),
        },
    }
}

} // verus!
