//! Decoders of the header and of its parts.

use vstd::prelude::*;
use crate::codes::{Coupling, Source, TriggerMode, Unit};
use crate::cursor::Cursor;
use crate::error::{Error, Stage};
use crate::layout::{
    binary32_at, channel_at, corrected_points, header_of, inferred_points, logic_at, magic,
    time_at, trigger_at, HEADER_LEN,
};
use crate::wire::{u32_at, TagFault};
use crate::model::{
    Binary32, ChannelHeader, LogicAnalyzerHeader, TimeHeader, TriggerHeader, WaveformHeader,
};

verus! {

/// Reads a single-precision number.
pub fn binary32<'a>(c: Cursor<'a>) -> (r: Option<(Binary32, Cursor<'a>)>)
    ensures
        r is Some <==> c.has(4),
        r matches Some((value, next)) ==> value == binary32_at(c.buffer(), c.pos() as int)
            && c.advances_to(next, 4),
{
    match c.le_u32() {
        Some((bits, next)) => Some((Binary32 { bits }, next)),
        None => None,
    }
}

/// Reads the settings of a channel.
pub fn channel_header<'a>(c: Cursor<'a>) -> (r: Option<(ChannelHeader, Cursor<'a>)>)
    ensures
        r is Some <==> c.has(24),
        r matches Some((header, next)) ==> header == channel_at(c.buffer(), c.pos() as int)
            && c.advances_to(next, 24),
{
    let c = c.skip(2)?;
    let (scale_display, c) = c.le_i32()?;
    let (shift_display, c) = c.le_i16()?;
    let c = c.skip(2)?;
    let (probe_value, c) = binary32(c)?;
    let (invert_display, c) = c.byte()?;
    let (enabled, c) = c.byte()?;
    let (inverted, c) = c.byte()?;
    let c = c.skip(1)?;
    let (scale_measured, c) = c.le_i32()?;
    let (shift_measured, c) = c.le_i16()?;
    Some(
        (
            ChannelHeader {
                scale_display,
                shift_display,
                probe_value,
                invert_display,
                scale_measured,
                shift_measured,
                inverted: inverted != 0,
                enabled: enabled != 0,
                unit: Unit::V,
            },
            c,
        ),
    )
}

/// Reads a time base.
pub fn time_header<'a>(c: Cursor<'a>) -> (r: Option<(TimeHeader, Cursor<'a>)>)
    ensures
        r is Some <==> c.has(36),
        r matches Some((header, next)) ==> header == time_at(c.buffer(), c.pos() as int)
            && c.advances_to(next, 36),
{
    let (scale_display, c) = c.le_i64()?;
    let (offset_display, c) = c.le_i64()?;
    let (sample_rate_hz, c) = binary32(c)?;
    let (scale_measured, c) = c.le_i64()?;
    let (offset_measured, c) = c.le_i64()?;
    Some(
        (
            TimeHeader {
                scale_display,
                offset_display,
                sample_rate_hz,
                scale_measured,
                offset_measured,
            },
            c,
        ),
    )
}

/// Reads the settings of the logic analyzer.
pub fn logic_analyzer_header<'a>(c: Cursor<'a>) -> (r: Option<
    (LogicAnalyzerHeader, Cursor<'a>),
>)
    ensures
        r is Some <==> c.has(22),
        r matches Some((header, next)) ==> header == logic_at(c.buffer(), c.pos() as int)
            && c.advances_to(next, 22),
{
    let (enabled, c) = c.byte()?;
    let (active_channel, c) = c.byte()?;
    let (enabled_channels, c) = c.le_u16()?;
    let (p, c) = c.take(16)?;
    let (group8to15size, c) = c.byte()?;
    let (group0to7size, c) = c.byte()?;
    assert(p@.len() == 16);
    let position: [u8; 16] = [
        p[0],
        p[1],
        p[2],
        p[3],
        p[4],
        p[5],
        p[6],
        p[7],
        p[8],
        p[9],
        p[10],
        p[11],
        p[12],
        p[13],
        p[14],
        p[15],
    ];
    assert(enabled & 1 == enabled % 2) by (bit_vector);
    let header = LogicAnalyzerHeader {
        enabled: enabled & 1 != 0,
        active_channel,
        enabled_channels,
        position,
        group8to15size,
        group0to7size,
    };
    assert(header.position =~= logic_at(c.buffer(), c.pos() - 22).position);
    Some((header, c))
}

/// Reads the settings of a trigger.
///
/// The 40 bytes are read before the three codes at their head are decoded:
/// where the buffer ends inside the block, that is the failure.
pub fn trigger_header<'a>(c: Cursor<'a>) -> (r: Result<(TriggerHeader, Cursor<'a>), Error>)
    ensures
        !c.has(40) ==> r == Err::<(TriggerHeader, Cursor<'a>), Error>(
            Error::Truncated { stage: Stage::Header },
        ),
        c.has(40) ==> match trigger_at(c.buffer(), c.pos() as int) {
            Ok(header) => r matches Ok((h, next)) && h == header && c.advances_to(next, 40),
            Err(e) => r == Err::<(TriggerHeader, Cursor<'a>), Error>(e),
        },
{
    let start = c.position();
    match trigger_fields(c) {
        None => Err(Error::Truncated { stage: Stage::Header }),
        Some((fields, next)) => {
            let mode = TriggerMode::decode(fields.mode, start)?;
            let source = Source::decode(fields.source, start + 1)?;
            let coupling = Coupling::decode(fields.coupling, start + 2)?;
            Ok(
                (
                    TriggerHeader {
                        mode,
                        source,
                        coupling,
                        sweep: fields.sweep,
                        sens: fields.sens,
                        holdoff: fields.holdoff,
                        level: fields.level,
                        direct: fields.direct != 0,
                        pulse_type: fields.pulse_type,
                        pulse_width: fields.pulse_width,
                        slope_type: fields.slope_type,
                        lower: fields.lower,
                        slope_width: fields.slope_width,
                        video_pol: fields.video_pol,
                        video_sync: fields.video_sync,
                        video_std: fields.video_std,
                    },
                    next,
                ),
            )
        },
    }
}

/// The fields of a trigger block as they lie in the buffer, no code decoded.
struct TriggerFields {
    mode: u8,
    source: u8,
    coupling: u8,
    sweep: u8,
    sens: Binary32,
    holdoff: Binary32,
    level: Binary32,
    direct: u8,
    pulse_type: u8,
    pulse_width: Binary32,
    slope_type: u8,
    lower: Binary32,
    slope_width: Binary32,
    video_pol: u8,
    video_sync: u8,
    video_std: u8,
}

/// The fields of the trigger block whose 40 bytes start at `at`.
spec fn trigger_fields_at(s: Seq<u8>, at: int) -> TriggerFields {
    TriggerFields {
        mode: s[at],
        source: s[at + 1],
        coupling: s[at + 2],
        sweep: s[at + 3],
        sens: binary32_at(s, at + 5),
        holdoff: binary32_at(s, at + 9),
        level: binary32_at(s, at + 13),
        direct: s[at + 17],
        pulse_type: s[at + 18],
        pulse_width: binary32_at(s, at + 21),
        slope_type: s[at + 25],
        lower: binary32_at(s, at + 29),
        slope_width: binary32_at(s, at + 33),
        video_pol: s[at + 37],
        video_sync: s[at + 38],
        video_std: s[at + 39],
    }
}

/// Reads the 40 bytes of a trigger block.
fn trigger_fields<'a>(c: Cursor<'a>) -> (r: Option<(TriggerFields, Cursor<'a>)>)
    ensures
        r is Some <==> c.has(40),
        r matches Some((fields, next)) ==> fields == trigger_fields_at(c.buffer(), c.pos() as int)
            && c.advances_to(next, 40),
{
    let (mode, c) = c.byte()?;
    let (source, c) = c.byte()?;
    let (coupling, c) = c.byte()?;
    let (sweep, c) = c.byte()?;
    let c = c.skip(1)?;
    let (sens, c) = binary32(c)?;
    let (holdoff, c) = binary32(c)?;
    let (level, c) = binary32(c)?;
    let (direct, c) = c.byte()?;
    let (pulse_type, c) = c.byte()?;
    let c = c.skip(2)?;
    let (pulse_width, c) = binary32(c)?;
    let (slope_type, c) = c.byte()?;
    let c = c.skip(3)?;
    let (lower, c) = binary32(c)?;
    let (slope_width, c) = binary32(c)?;
    let (video_pol, c) = c.byte()?;
    let (video_sync, c) = c.byte()?;
    let (video_std, c) = c.byte()?;
    Some(
        (
            TriggerFields {
                mode,
                source,
                coupling,
                sweep,
                sens,
                holdoff,
                level,
                direct,
                pulse_type,
                pulse_width,
                slope_type,
                lower,
                slope_width,
                video_pol,
                video_sync,
                video_std,
            },
            c,
        ),
    )
}

/// Corrects the raw point count of channel 1 for rolling mode, and gives
/// the number of bytes to pass over behind the samples of a channel.
///
/// Fails where the corrected count would fall below zero.
pub fn rolling_correction(roll_stop: u32, raw_points: u32) -> (r: Result<(u32, u32), Error>)
    ensures
        r == match corrected_points(roll_stop, raw_points) {
            Some(pair) => Ok::<(u32, u32), Error>(pair),
            None => Err(Error::ArithmeticUnderflow),
        },
{
    if roll_stop == 0 {
        if raw_points >= 4 {
            Ok((raw_points - 4, 0))
        } else {
            Err(Error::ArithmeticUnderflow)
        }
    } else {
        if raw_points >= 6 && raw_points - 6 >= roll_stop {
            Ok((raw_points - 6 - roll_stop, roll_stop + 2))
        } else {
            Err(Error::ArithmeticUnderflow)
        }
    }
}

/// The point count of channel 2: that of channel 1 where the buffer holds
/// none and channel 1 is enabled, else what the buffer holds.
pub fn infer_points(ch1_enabled: bool, ch1_points: u32, raw_points: u32) -> (points: u32)
    ensures
        points == inferred_points(ch1_enabled, ch1_points, raw_points),
{
    if ch1_enabled && raw_points == 0 {
        ch1_points
    } else {
        raw_points
    }
}

/// The fields that lie between the magic tag and trigger 1.
struct Front {
    adc_mode: u8,
    roll_stop: u32,
    raw_ch1_points: u32,
    active_channel: u8,
    ch1: ChannelHeader,
    ch2: ChannelHeader,
    time: TimeHeader,
    logic: LogicAnalyzerHeader,
    trigger_mode: u8,
}

/// The fields of `s` that lie between the magic tag and trigger 1.
spec fn front_of(s: Seq<u8>) -> Front {
    Front {
        adc_mode: s[16],
        roll_stop: u32_at(s, 20) as u32,
        raw_ch1_points: u32_at(s, 28) as u32,
        active_channel: s[32],
        ch1: channel_at(s, 34),
        ch2: channel_at(s, 58),
        time: time_at(s, 84),
        logic: logic_at(s, 120),
        trigger_mode: s[142],
    }
}

/// Reads from behind the magic tag up to trigger 1.
fn front<'a>(c: Cursor<'a>) -> (r: Option<(Front, Cursor<'a>)>)
    requires
        c.pos() == 4,
    ensures
        r is Some <==> c.buffer().len() >= 143,
        r matches Some((fields, next)) ==> fields == front_of(c.buffer()) && next.buffer()
            == c.buffer() && next.pos() == 143,
{
    let c = c.skip(12)?;
    let (adc_mode, c) = c.byte()?;
    let c = c.skip(3)?;
    let (roll_stop, c) = c.le_u32()?;
    let c = c.skip(4)?;
    let (raw_ch1_points, c) = c.le_u32()?;
    let (active_channel, c) = c.byte()?;
    let c = c.skip(1)?;
    let (ch1, c) = channel_header(c)?;
    let (ch2, c) = channel_header(c)?;
    let c = c.skip(2)?;
    let (time, c) = time_header(c)?;
    let (logic, c) = logic_analyzer_header(c)?;
    let (trigger_mode, c) = c.byte()?;
    Some(
        (
            Front {
                adc_mode,
                roll_stop,
                raw_ch1_points,
                active_channel,
                ch1,
                ch2,
                time,
                logic,
                trigger_mode,
            },
            c,
        ),
    )
}

/// Reads from behind trigger 2 up to the end of the header: the raw point
/// count of channel 2 and its time base.
fn back<'a>(c: Cursor<'a>) -> (r: Option<(u32, TimeHeader, Cursor<'a>)>)
    requires
        c.pos() == 223,
    ensures
        r is Some <==> c.buffer().len() >= 276,
        r matches Some((raw_ch2_points, time2, next)) ==> raw_ch2_points == u32_at(
            c.buffer(),
            229,
        ) && time2 == time_at(c.buffer(), 233) && next.buffer() == c.buffer() && next.pos()
            == 276,
{
    let c = c.skip(6)?;
    let (raw_ch2_points, c) = c.le_u32()?;
    let (time2, c) = time_header(c)?;
    let c = c.skip(4)?;
    let c = c.skip(3)?;
    Some((raw_ch2_points, time2, c))
}

/// Decodes the header at the start of `input`, and hands back the cursor
/// behind it, at the first sample.
pub fn waveform_header<'a>(input: &'a [u8]) -> (r: Result<(WaveformHeader, Cursor<'a>), Error>)
    ensures
        match header_of(input@) {
            Ok(header) => r matches Ok((h, next)) && h == header && next.buffer() == input@
                && next.pos() == HEADER_LEN,
            Err(e) => r == Err::<(WaveformHeader, Cursor<'a>), Error>(e),
        },
{
    let truncated = Error::Truncated { stage: Stage::Header };
    let tag: [u8; 4] = [0xa5, 0xa5, 0x00, 0x00];
    let c = Cursor::new(input);
    proof {
        assert(c.buffer().skip(0) =~= input@);
        assert(tag@ =~= magic());
    }
    let c = match c.tag(&tag) {
        Ok(next) => next,
        Err(TagFault::Mismatch) => {
            return Err(Error::MagicMismatch);
        },
        Err(TagFault::Incomplete) => {
            return Err(truncated);
        },
    };
    let (fields, c) = front(c).ok_or(truncated)?;
    let (trigger1, c) = trigger_header(c)?;
    let (trigger2, c) = trigger_header(c)?;
    let (raw_ch2_points, time2, c) = back(c).ok_or(truncated)?;
    let (ch1_points, ch1_skip) = rolling_correction(fields.roll_stop, fields.raw_ch1_points)?;
    let _ = TriggerMode::decode(fields.trigger_mode, 142)?;
    let ch2_points = infer_points(fields.ch1.enabled, ch1_points, raw_ch2_points);
    Ok(
        (
            WaveformHeader {
                adc_mode: fields.adc_mode,
                roll_stop: fields.roll_stop,
                active_channel: fields.active_channel,
                ch1: fields.ch1,
                ch2: fields.ch2,
                time: fields.time,
                time2,
                trigger1,
                trigger2,
                logic: fields.logic,
                ch1_points,
                ch1_skip,
                ch2_points,
            },
            c,
        ),
    )
}

} // verus!
