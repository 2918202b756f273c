//! Decoder for the waveform capture files written by DS1000E-series
//! oscilloscopes.
//!
//! A capture is a fixed 276-byte header followed by the sample blocks of
//! the parts that were captured: channel 1, channel 2 and the logic
//! analyzer. [`parse`] turns a byte buffer into a [`WaveformData`].
//!
//! The module [`layout`] describes the format by byte offsets, and every
//! decoder is verified against it. The integers are read by `nom`'s
//! streaming parsers, behind the functions of [`wire`], whose contracts
//! restate what `nom` does and are not proved.
//!
//! Numbers that the format holds in floating point are carried through as
//! their bits, see [`Binary32`]. Nothing in this crate computes with them.

use vstd::prelude::*;

pub mod codes;
pub mod cursor;
pub mod error;
pub mod header;
pub mod laws;
pub mod layout;
pub mod model;
pub mod samples;
pub mod wire;

pub use codes::{Bandwidth, Coupling, Filter, Source, TriggerMode, Unit};
pub use cursor::Cursor;
pub use error::{Error, Stage};
pub use model::{
    Binary32, ChannelHeader, LogicAnalyzerHeader, RawData, TimeHeader, TriggerHeader,
    WaveformData, WaveformHeader,
};

verus! {

/// Decodes a capture.
///
/// The result is a function of the bytes alone: it is what
/// [`layout::capture_of`] says of them. Bytes behind the last sample block
/// are ignored.
pub fn parse(input: &[u8]) -> (r: Result<WaveformData, Error>)
    ensures
        match layout::capture_of(input@) {
            Ok(capture) => r matches Ok(data) && data@ == capture,
            Err(e) => r == Err::<WaveformData, Error>(e),
        },
{
    let (header, c) = header::waveform_header(input)?;
    let (data, _) = samples::raw_data(c, &header)?;
    Ok(WaveformData { header, data })
}

} // verus!
