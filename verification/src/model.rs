//! What a capture decodes to.

use vstd::prelude::*;
use crate::codes::{Coupling, Source, TriggerMode, Unit};

verus! {

/// An IEEE 754 single-precision number, held as its 32 bits.
///
/// The decoder carries such numbers through and never computes with them.
/// Two values are equal when their bits are.
#[derive(Debug, Clone, Copy, PartialEq, Eq, Structural)]
pub struct Binary32 {
    /// The bits: sign, eight bits of exponent, 23 bits of fraction.
    pub bits: u32,
}

/// Settings of one analog channel.
#[derive(Debug, Clone, Copy, PartialEq, Eq, Structural)]
pub struct ChannelHeader {
    /// Vertical scale as displayed.
    pub scale_display: i32,
    /// Vertical shift as displayed.
    pub shift_display: i16,
    /// Attenuation of the probe.
    pub probe_value: Binary32,
    /// The byte that says whether the display is inverted, as it was read.
    pub invert_display: u8,
    /// Vertical scale as measured, in microvolts per division.
    pub scale_measured: i32,
    /// Vertical shift as measured.
    pub shift_measured: i16,
    /// Whether the signal is inverted.
    pub inverted: bool,
    /// Whether the channel was captured.
    pub enabled: bool,
    /// Unit of the vertical axis. The format knows volts only.
    pub unit: Unit,
}

/// A time base.
#[derive(Debug, Clone, Copy, PartialEq, Eq, Structural)]
pub struct TimeHeader {
    /// Horizontal scale as displayed, in picoseconds per division.
    pub scale_display: i64,
    /// Horizontal offset as displayed, in picoseconds.
    pub offset_display: i64,
    /// Samples per second.
    pub sample_rate_hz: Binary32,
    /// Horizontal scale as measured, in picoseconds per division.
    pub scale_measured: i64,
    /// Horizontal offset as measured, in picoseconds.
    pub offset_measured: i64,
}

/// Settings of one trigger.
///
/// `sweep`, `pulse_type`, `slope_type` and the three video fields are
/// codes whose meaning the format does not tell; they are kept as read.
#[derive(Debug, Clone, Copy, PartialEq, Eq, Structural)]
pub struct TriggerHeader {
    /// Condition that fires the trigger.
    pub mode: TriggerMode,
    /// Signal that the trigger watches.
    pub source: Source,
    /// Coupling of the trigger's input.
    pub coupling: Coupling,
    /// Code of the sweep.
    pub sweep: u8,
    /// Sensitivity.
    pub sens: Binary32,
    /// Time after a trigger in which no other fires.
    pub holdoff: Binary32,
    /// Level that the signal has to cross.
    pub level: Binary32,
    /// Whether the trigger is direct.
    pub direct: bool,
    /// Code of the kind of pulse.
    pub pulse_type: u8,
    /// Width of the pulse.
    pub pulse_width: Binary32,
    /// Code of the kind of slope.
    pub slope_type: u8,
    /// Lower level of a slope.
    pub lower: Binary32,
    /// Time of the slope.
    pub slope_width: Binary32,
    /// Code of the video polarity.
    pub video_pol: u8,
    /// Code of the video synchronisation.
    pub video_sync: u8,
    /// Code of the video standard.
    pub video_std: u8,
}

/// Settings of the logic analyzer.
///
/// `position` and the two group sizes are kept as read.
#[derive(Debug, Clone, Copy, PartialEq, Eq)]
pub struct LogicAnalyzerHeader {
    /// Whether the logic analyzer was captured.
    pub enabled: bool,
    /// Index of the selected digital channel.
    pub active_channel: u8,
    /// One bit for each digital channel that is switched on.
    pub enabled_channels: u16,
    /// One byte for each digital channel.
    pub position: [u8; 16],
    /// Size of the group of channels 8 to 15.
    pub group8to15size: u8,
    /// Size of the group of channels 0 to 7.
    pub group0to7size: u8,
}

/// The header of a capture.
#[derive(Debug, Clone, Copy, PartialEq, Eq)]
pub struct WaveformHeader {
    /// Mode of the converter, as read.
    pub adc_mode: u8,
    /// Zero for a capture that was not taken in rolling mode; else the
    /// index at which the rolling buffer stopped.
    pub roll_stop: u32,
    /// The selected channel.
    pub active_channel: u8,
    /// Settings of channel 1.
    pub ch1: ChannelHeader,
    /// Settings of channel 2.
    pub ch2: ChannelHeader,
    /// Time base of channel 1, and of channel 2 unless the trigger
    /// alternates between the channels.
    pub time: TimeHeader,
    /// Time base of channel 2 where the trigger alternates.
    pub time2: TimeHeader,
    /// Settings of the first trigger.
    pub trigger1: TriggerHeader,
    /// Settings of the second trigger.
    pub trigger2: TriggerHeader,
    /// Settings of the logic analyzer.
    pub logic: LogicAnalyzerHeader,
    /// Number of samples of channel 1, after the rolling-mode correction.
    /// The logic analyzer has as many.
    pub ch1_points: u32,
    /// Number of bytes to pass over behind the samples of channel 1, and
    /// behind those of channel 2.
    pub ch1_skip: u32,
    /// Number of samples of channel 2: what the buffer holds, or the number
    /// of channel 1 where the buffer holds zero and channel 1 is enabled.
    pub ch2_points: u32,
}

/// The samples of a capture, as read. A part that was not captured is
/// empty.
#[derive(Debug, Clone, PartialEq, Eq)]
pub struct RawData {
    /// Samples of channel 1, one byte each.
    pub ch1: Vec<u8>,
    /// Samples of channel 2, one byte each.
    pub ch2: Vec<u8>,
    /// Samples of the logic analyzer, one bit for each digital channel.
    pub logic: Vec<u16>,
}

/// The samples of a capture as sequences.
pub struct RawDataView {
    pub ch1: Seq<u8>,
    pub ch2: Seq<u8>,
    pub logic: Seq<u16>,
}

impl View for RawData {
    type V = RawDataView;

    open spec fn view(&self) -> RawDataView {
        RawDataView { ch1: self.ch1@, ch2: self.ch2@, logic: self.logic@ }
    }
}

impl Default for RawData {
    fn default() -> (d: RawData)
        ensures
            d@.ch1.len() == 0,
            d@.ch2.len() == 0,
            d@.logic.len() == 0,
    {
        RawData { ch1: Vec::new(), ch2: Vec::new(), logic: Vec::new() }
    }
}

/// A decoded capture.
#[derive(Debug, Clone, PartialEq, Eq)]
pub struct WaveformData {
    /// What the header says.
    pub header: WaveformHeader,
    /// The samples that lie behind the header.
    pub data: RawData,
}

/// A decoded capture, its samples as sequences.
pub struct WaveformDataView {
    pub header: WaveformHeader,
    pub data: RawDataView,
}

impl View for WaveformData {
    type V = WaveformDataView;

    open spec fn view(&self) -> WaveformDataView {
        WaveformDataView { header: self.header, data: self.data@ }
    }
}

} // verus!
