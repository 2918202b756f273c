//! The closed sets of integer codes that the format uses.
//!
//! Each enum lists its variants in the order of their codes, from zero. A
//! code above the enum's largest names no variant and is never replaced by
//! a default.

use vstd::prelude::*;
use crate::error::Error;

verus! {

/// Bandwidth limit of an input channel.
#[derive(Debug, Clone, Copy, PartialEq, Eq, PartialOrd, Ord, Structural)]
pub enum Bandwidth {
    /// No limit.
    NoLimit,
    /// 20 MHz.
    Mhz20,
    /// 100 MHz.
    Mhz100,
    /// 200 MHz.
    Mhz200,
    /// 250 MHz.
    Mhz250,
}

impl Bandwidth {
    /// The largest code that names a variant.
    pub const MAX_CODE: u8 = 4;

    /// The variant's code.
    pub open spec fn spec_code(self) -> u8 {
        match self {
            Bandwidth::NoLimit => 0,
            Bandwidth::Mhz20 => 1,
            Bandwidth::Mhz100 => 2,
            Bandwidth::Mhz200 => 3,
            Bandwidth::Mhz250 => 4,
        }
    }

    /// The variant that the code `raw` names, if it names one.
    pub open spec fn from_code(raw: u8) -> Option<Self> {
        match raw {
            0 => Some(Bandwidth::NoLimit),
            1 => Some(Bandwidth::Mhz20),
            2 => Some(Bandwidth::Mhz100),
            3 => Some(Bandwidth::Mhz200),
            4 => Some(Bandwidth::Mhz250),
            _ => None,
        }
    }

    /// The variant's code.
    #[verifier::when_used_as_spec(spec_code)]
    pub fn code(self) -> (code: u8)
        ensures
            code == self.spec_code(),
    {
        match self {
            Bandwidth::NoLimit => 0,
            Bandwidth::Mhz20 => 1,
            Bandwidth::Mhz100 => 2,
            Bandwidth::Mhz200 => 3,
            Bandwidth::Mhz250 => 4,
        }
    }

    /// What decoding the code `raw`, read at byte `offset` of a buffer,
    /// gives: the variant that it names, or the failure that tells code and
    /// offset.
    pub open spec fn spec_decode(raw: u8, offset: usize) -> Result<Self, Error> {
        match Self::from_code(raw) {
            Some(v) => Ok(v),
            None => Err(Error::InvalidEnumCode { offset, code: raw }),
        }
    }

    /// Decodes the code `raw` that was read at byte `offset` of a buffer.
    /// The offset is only reported: it goes into the failure.
    #[verifier::when_used_as_spec(spec_decode)]
    pub fn decode(raw: u8, offset: usize) -> (r: Result<Self, Error>)
        ensures
            r == Self::spec_decode(raw, offset),
    {
        match Bandwidth::try_from(raw) {
            Ok(v) => Ok(v),
            Err(_) => Err(Error::InvalidEnumCode { offset, code: raw }),
        }
    }

    /// Every code up to the largest decodes, to the variant that has this
    /// code. Every code above the largest fails as an invalid code.
    pub proof fn lemma_decode(raw: u8, offset: usize)
        ensures
            raw <= Self::MAX_CODE ==> Self::spec_decode(raw, offset) is Ok
                && Self::spec_decode(raw, offset)->Ok_0.spec_code() == raw,
            raw > Self::MAX_CODE ==> Self::spec_decode(raw, offset) == Err::<Self, Error>(
                Error::InvalidEnumCode { offset, code: raw },
            ),
    {
    }

    /// The code of every variant is at most the largest, and decodes to the
    /// variant.
    pub proof fn lemma_code(self, offset: usize)
        ensures
            self.spec_code() <= Self::MAX_CODE,
            Self::spec_decode(self.spec_code(), offset) == Ok::<Self, Error>(self),
    {
    }
}

impl TryFrom<u8> for Bandwidth {
    type Error = ();

    /// The variant that the code `raw` names. What it returns is stated by
    /// `try_from_spec` below, which Verus holds this body to.
    fn try_from(raw: u8) -> (r: Result<Self, ()>) {
        match raw {
            0 => Ok(Bandwidth::NoLimit),
            1 => Ok(Bandwidth::Mhz20),
            2 => Ok(Bandwidth::Mhz100),
            3 => Ok(Bandwidth::Mhz200),
            4 => Ok(Bandwidth::Mhz250),
            _ => Err(()),
        }
    }
}

impl vstd::std_specs::convert::TryFromSpecImpl<u8> for Bandwidth {
    open spec fn obeys_try_from_spec() -> bool {
        true
    }

    /// The variant that `raw` names; a failure where it names none.
    open spec fn try_from_spec(raw: u8) -> Result<Self, ()> {
        match Self::from_code(raw) {
            Some(v) => Ok(v),
            None => Err(()),
        }
    }
}

/// Input coupling.
#[derive(Debug, Clone, Copy, PartialEq, Eq, PartialOrd, Ord, Structural)]
pub enum Coupling {
    /// Direct.
    Dc,
    /// Through a capacitor.
    Ac,
    /// Grounded.
    Gnd,
}

impl Coupling {
    /// The largest code that names a variant.
    pub const MAX_CODE: u8 = 2;

    /// The variant's code.
    pub open spec fn spec_code(self) -> u8 {
        match self {
            Coupling::Dc => 0,
            Coupling::Ac => 1,
            Coupling::Gnd => 2,
        }
    }

    /// The variant that the code `raw` names, if it names one.
    pub open spec fn from_code(raw: u8) -> Option<Self> {
        match raw {
            0 => Some(Coupling::Dc),
            1 => Some(Coupling::Ac),
            2 => Some(Coupling::Gnd),
            _ => None,
        }
    }

    /// The variant's code.
    #[verifier::when_used_as_spec(spec_code)]
    pub fn code(self) -> (code: u8)
        ensures
            code == self.spec_code(),
    {
        match self {
            Coupling::Dc => 0,
            Coupling::Ac => 1,
            Coupling::Gnd => 2,
        }
    }

    /// What decoding the code `raw`, read at byte `offset` of a buffer,
    /// gives: the variant that it names, or the failure that tells code and
    /// offset.
    pub open spec fn spec_decode(raw: u8, offset: usize) -> Result<Self, Error> {
        match Self::from_code(raw) {
            Some(v) => Ok(v),
            None => Err(Error::InvalidEnumCode { offset, code: raw }),
        }
    }

    /// Decodes the code `raw` that was read at byte `offset` of a buffer.
    /// The offset is only reported: it goes into the failure.
    #[verifier::when_used_as_spec(spec_decode)]
    pub fn decode(raw: u8, offset: usize) -> (r: Result<Self, Error>)
        ensures
            r == Self::spec_decode(raw, offset),
    {
        match Coupling::try_from(raw) {
            Ok(v) => Ok(v),
            Err(_) => Err(Error::InvalidEnumCode { offset, code: raw }),
        }
    }

    /// Every code up to the largest decodes, to the variant that has this
    /// code. Every code above the largest fails as an invalid code.
    pub proof fn lemma_decode(raw: u8, offset: usize)
        ensures
            raw <= Self::MAX_CODE ==> Self::spec_decode(raw, offset) is Ok
                && Self::spec_decode(raw, offset)->Ok_0.spec_code() == raw,
            raw > Self::MAX_CODE ==> Self::spec_decode(raw, offset) == Err::<Self, Error>(
                Error::InvalidEnumCode { offset, code: raw },
            ),
    {
    }

    /// The code of every variant is at most the largest, and decodes to the
    /// variant.
    pub proof fn lemma_code(self, offset: usize)
        ensures
            self.spec_code() <= Self::MAX_CODE,
            Self::spec_decode(self.spec_code(), offset) == Ok::<Self, Error>(self),
    {
    }
}

impl TryFrom<u8> for Coupling {
    type Error = ();

    /// The variant that the code `raw` names. What it returns is stated by
    /// `try_from_spec` below, which Verus holds this body to.
    fn try_from(raw: u8) -> (r: Result<Self, ()>) {
        match raw {
            0 => Ok(Coupling::Dc),
            1 => Ok(Coupling::Ac),
            2 => Ok(Coupling::Gnd),
            _ => Err(()),
        }
    }
}

impl vstd::std_specs::convert::TryFromSpecImpl<u8> for Coupling {
    open spec fn obeys_try_from_spec() -> bool {
        true
    }

    /// The variant that `raw` names; a failure where it names none.
    open spec fn try_from_spec(raw: u8) -> Result<Self, ()> {
        match Self::from_code(raw) {
            Some(v) => Ok(v),
            None => Err(()),
        }
    }
}

/// Kind of digital filter.
#[derive(Debug, Clone, Copy, PartialEq, Eq, PartialOrd, Ord, Structural)]
pub enum Filter {
    /// Passes what lies below the limit.
    LowPass,
    /// Passes what lies above the limit.
    HighPass,
    /// Passes what lies inside the band.
    BandPass,
    /// Passes what lies outside the band.
    BandReject,
}

impl Filter {
    /// The largest code that names a variant.
    pub const MAX_CODE: u8 = 3;

    /// The variant's code.
    pub open spec fn spec_code(self) -> u8 {
        match self {
            Filter::LowPass => 0,
            Filter::HighPass => 1,
            Filter::BandPass => 2,
            Filter::BandReject => 3,
        }
    }

    /// The variant that the code `raw` names, if it names one.
    pub open spec fn from_code(raw: u8) -> Option<Self> {
        match raw {
            0 => Some(Filter::LowPass),
            1 => Some(Filter::HighPass),
            2 => Some(Filter::BandPass),
            3 => Some(Filter::BandReject),
            _ => None,
        }
    }

    /// The variant's code.
    #[verifier::when_used_as_spec(spec_code)]
    pub fn code(self) -> (code: u8)
        ensures
            code == self.spec_code(),
    {
        match self {
            Filter::LowPass => 0,
            Filter::HighPass => 1,
            Filter::BandPass => 2,
            Filter::BandReject => 3,
        }
    }

    /// What decoding the code `raw`, read at byte `offset` of a buffer,
    /// gives: the variant that it names, or the failure that tells code and
    /// offset.
    pub open spec fn spec_decode(raw: u8, offset: usize) -> Result<Self, Error> {
        match Self::from_code(raw) {
            Some(v) => Ok(v),
            None => Err(Error::InvalidEnumCode { offset, code: raw }),
        }
    }

    /// Decodes the code `raw` that was read at byte `offset` of a buffer.
    /// The offset is only reported: it goes into the failure.
    #[verifier::when_used_as_spec(spec_decode)]
    pub fn decode(raw: u8, offset: usize) -> (r: Result<Self, Error>)
        ensures
            r == Self::spec_decode(raw, offset),
    {
        match Filter::try_from(raw) {
            Ok(v) => Ok(v),
            Err(_) => Err(Error::InvalidEnumCode { offset, code: raw }),
        }
    }

    /// Every code up to the largest decodes, to the variant that has this
    /// code. Every code above the largest fails as an invalid code.
    pub proof fn lemma_decode(raw: u8, offset: usize)
        ensures
            raw <= Self::MAX_CODE ==> Self::spec_decode(raw, offset) is Ok
                && Self::spec_decode(raw, offset)->Ok_0.spec_code() == raw,
            raw > Self::MAX_CODE ==> Self::spec_decode(raw, offset) == Err::<Self, Error>(
                Error::InvalidEnumCode { offset, code: raw },
            ),
    {
    }

    /// The code of every variant is at most the largest, and decodes to the
    /// variant.
    pub proof fn lemma_code(self, offset: usize)
        ensures
            self.spec_code() <= Self::MAX_CODE,
            Self::spec_decode(self.spec_code(), offset) == Ok::<Self, Error>(self),
    {
    }
}

impl TryFrom<u8> for Filter {
    type Error = ();

    /// The variant that the code `raw` names. What it returns is stated by
    /// `try_from_spec` below, which Verus holds this body to.
    fn try_from(raw: u8) -> (r: Result<Self, ()>) {
        match raw {
            0 => Ok(Filter::LowPass),
            1 => Ok(Filter::HighPass),
            2 => Ok(Filter::BandPass),
            3 => Ok(Filter::BandReject),
            _ => Err(()),
        }
    }
}

impl vstd::std_specs::convert::TryFromSpecImpl<u8> for Filter {
    open spec fn obeys_try_from_spec() -> bool {
        true
    }

    /// The variant that `raw` names; a failure where it names none.
    open spec fn try_from_spec(raw: u8) -> Result<Self, ()> {
        match Self::from_code(raw) {
            Some(v) => Ok(v),
            None => Err(()),
        }
    }
}

/// Signal that a trigger watches.
#[derive(Debug, Clone, Copy, PartialEq, Eq, PartialOrd, Ord, Structural)]
pub enum Source {
    /// Channel 1.
    Ch1,
    /// Channel 2.
    Ch2,
    /// The external input.
    Ext,
    /// The external input, attenuated by five.
    Ext5,
    /// The mains.
    AcLine,
    /// A digital channel.
    DigCh,
}

impl Source {
    /// The largest code that names a variant.
    pub const MAX_CODE: u8 = 5;

    /// The variant's code.
    pub open spec fn spec_code(self) -> u8 {
        match self {
            Source::Ch1 => 0,
            Source::Ch2 => 1,
            Source::Ext => 2,
            Source::Ext5 => 3,
            Source::AcLine => 4,
            Source::DigCh => 5,
        }
    }

    /// The variant that the code `raw` names, if it names one.
    pub open spec fn from_code(raw: u8) -> Option<Self> {
        match raw {
            0 => Some(Source::Ch1),
            1 => Some(Source::Ch2),
            2 => Some(Source::Ext),
            3 => Some(Source::Ext5),
            4 => Some(Source::AcLine),
            5 => Some(Source::DigCh),
            _ => None,
        }
    }

    /// The variant's code.
    #[verifier::when_used_as_spec(spec_code)]
    pub fn code(self) -> (code: u8)
        ensures
            code == self.spec_code(),
    {
        match self {
            Source::Ch1 => 0,
            Source::Ch2 => 1,
            Source::Ext => 2,
            Source::Ext5 => 3,
            Source::AcLine => 4,
            Source::DigCh => 5,
        }
    }

    /// What decoding the code `raw`, read at byte `offset` of a buffer,
    /// gives: the variant that it names, or the failure that tells code and
    /// offset.
    pub open spec fn spec_decode(raw: u8, offset: usize) -> Result<Self, Error> {
        match Self::from_code(raw) {
            Some(v) => Ok(v),
            None => Err(Error::InvalidEnumCode { offset, code: raw }),
        }
    }

    /// Decodes the code `raw` that was read at byte `offset` of a buffer.
    /// The offset is only reported: it goes into the failure.
    #[verifier::when_used_as_spec(spec_decode)]
    pub fn decode(raw: u8, offset: usize) -> (r: Result<Self, Error>)
        ensures
            r == Self::spec_decode(raw, offset),
    {
        match Source::try_from(raw) {
            Ok(v) => Ok(v),
            Err(_) => Err(Error::InvalidEnumCode { offset, code: raw }),
        }
    }

    /// Every code up to the largest decodes, to the variant that has this
    /// code. Every code above the largest fails as an invalid code.
    pub proof fn lemma_decode(raw: u8, offset: usize)
        ensures
            raw <= Self::MAX_CODE ==> Self::spec_decode(raw, offset) is Ok
                && Self::spec_decode(raw, offset)->Ok_0.spec_code() == raw,
            raw > Self::MAX_CODE ==> Self::spec_decode(raw, offset) == Err::<Self, Error>(
                Error::InvalidEnumCode { offset, code: raw },
            ),
    {
    }

    /// The code of every variant is at most the largest, and decodes to the
    /// variant.
    pub proof fn lemma_code(self, offset: usize)
        ensures
            self.spec_code() <= Self::MAX_CODE,
            Self::spec_decode(self.spec_code(), offset) == Ok::<Self, Error>(self),
    {
    }
}

impl TryFrom<u8> for Source {
    type Error = ();

    /// The variant that the code `raw` names. What it returns is stated by
    /// `try_from_spec` below, which Verus holds this body to.
    fn try_from(raw: u8) -> (r: Result<Self, ()>) {
        match raw {
            0 => Ok(Source::Ch1),
            1 => Ok(Source::Ch2),
            2 => Ok(Source::Ext),
            3 => Ok(Source::Ext5),
            4 => Ok(Source::AcLine),
            5 => Ok(Source::DigCh),
            _ => Err(()),
        }
    }
}

impl vstd::std_specs::convert::TryFromSpecImpl<u8> for Source {
    open spec fn obeys_try_from_spec() -> bool {
        true
    }

    /// The variant that `raw` names; a failure where it names none.
    open spec fn try_from_spec(raw: u8) -> Result<Self, ()> {
        match Self::from_code(raw) {
            Some(v) => Ok(v),
            None => Err(()),
        }
    }
}

/// Condition that fires a trigger.
#[derive(Debug, Clone, Copy, PartialEq, Eq, PartialOrd, Ord, Structural)]
pub enum TriggerMode {
    /// An edge.
    Edge,
    /// A pulse of a given width.
    Pulse,
    /// A slope of a given time.
    Slope,
    /// A video synchronisation signal.
    Video,
    /// Channels 1 and 2 in turn, each with its own time base.
    Alt,
    /// A pattern on the digital channels.
    Pattern,
    /// A pattern that lasts a given time.
    Duration,
}

impl TriggerMode {
    /// The largest code that names a variant.
    pub const MAX_CODE: u8 = 6;

    /// The variant's code.
    pub open spec fn spec_code(self) -> u8 {
        match self {
            TriggerMode::Edge => 0,
            TriggerMode::Pulse => 1,
            TriggerMode::Slope => 2,
            TriggerMode::Video => 3,
            TriggerMode::Alt => 4,
            TriggerMode::Pattern => 5,
            TriggerMode::Duration => 6,
        }
    }

    /// The variant that the code `raw` names, if it names one.
    pub open spec fn from_code(raw: u8) -> Option<Self> {
        match raw {
            0 => Some(TriggerMode::Edge),
            1 => Some(TriggerMode::Pulse),
            2 => Some(TriggerMode::Slope),
            3 => Some(TriggerMode::Video),
            4 => Some(TriggerMode::Alt),
            5 => Some(TriggerMode::Pattern),
            6 => Some(TriggerMode::Duration),
            _ => None,
        }
    }

    /// The variant's code.
    #[verifier::when_used_as_spec(spec_code)]
    pub fn code(self) -> (code: u8)
        ensures
            code == self.spec_code(),
    {
        match self {
            TriggerMode::Edge => 0,
            TriggerMode::Pulse => 1,
            TriggerMode::Slope => 2,
            TriggerMode::Video => 3,
            TriggerMode::Alt => 4,
            TriggerMode::Pattern => 5,
            TriggerMode::Duration => 6,
        }
    }

    /// What decoding the code `raw`, read at byte `offset` of a buffer,
    /// gives: the variant that it names, or the failure that tells code and
    /// offset.
    pub open spec fn spec_decode(raw: u8, offset: usize) -> Result<Self, Error> {
        match Self::from_code(raw) {
            Some(v) => Ok(v),
            None => Err(Error::InvalidEnumCode { offset, code: raw }),
        }
    }

    /// Decodes the code `raw` that was read at byte `offset` of a buffer.
    /// The offset is only reported: it goes into the failure.
    #[verifier::when_used_as_spec(spec_decode)]
    pub fn decode(raw: u8, offset: usize) -> (r: Result<Self, Error>)
        ensures
            r == Self::spec_decode(raw, offset),
    {
        match TriggerMode::try_from(raw) {
            Ok(v) => Ok(v),
            Err(_) => Err(Error::InvalidEnumCode { offset, code: raw }),
        }
    }

    /// Every code up to the largest decodes, to the variant that has this
    /// code. Every code above the largest fails as an invalid code.
    pub proof fn lemma_decode(raw: u8, offset: usize)
        ensures
            raw <= Self::MAX_CODE ==> Self::spec_decode(raw, offset) is Ok
                && Self::spec_decode(raw, offset)->Ok_0.spec_code() == raw,
            raw > Self::MAX_CODE ==> Self::spec_decode(raw, offset) == Err::<Self, Error>(
                Error::InvalidEnumCode { offset, code: raw },
            ),
    {
    }

    /// The code of every variant is at most the largest, and decodes to the
    /// variant.
    pub proof fn lemma_code(self, offset: usize)
        ensures
            self.spec_code() <= Self::MAX_CODE,
            Self::spec_decode(self.spec_code(), offset) == Ok::<Self, Error>(self),
    {
    }
}

impl TryFrom<u8> for TriggerMode {
    type Error = ();

    /// The variant that the code `raw` names. What it returns is stated by
    /// `try_from_spec` below, which Verus holds this body to.
    fn try_from(raw: u8) -> (r: Result<Self, ()>) {
        match raw {
            0 => Ok(TriggerMode::Edge),
            1 => Ok(TriggerMode::Pulse),
            2 => Ok(TriggerMode::Slope),
            3 => Ok(TriggerMode::Video),
            4 => Ok(TriggerMode::Alt),
            5 => Ok(TriggerMode::Pattern),
            6 => Ok(TriggerMode::Duration),
            _ => Err(()),
        }
    }
}

impl vstd::std_specs::convert::TryFromSpecImpl<u8> for TriggerMode {
    open spec fn obeys_try_from_spec() -> bool {
        true
    }

    /// The variant that `raw` names; a failure where it names none.
    open spec fn try_from_spec(raw: u8) -> Result<Self, ()> {
        match Self::from_code(raw) {
            Some(v) => Ok(v),
            None => Err(()),
        }
    }
}

/// Unit of a channel's vertical axis.
#[derive(Debug, Clone, Copy, PartialEq, Eq, PartialOrd, Ord, Structural)]
pub enum Unit {
    /// Watt.
    W,
    /// Ampere.
    A,
    /// Volt.
    V,
    /// Unknown.
    U,
}

impl Unit {
    /// The largest code that names a variant.
    pub const MAX_CODE: u8 = 3;

    /// The variant's code.
    pub open spec fn spec_code(self) -> u8 {
        match self {
            Unit::W => 0,
            Unit::A => 1,
            Unit::V => 2,
            Unit::U => 3,
        }
    }

    /// The variant that the code `raw` names, if it names one.
    pub open spec fn from_code(raw: u8) -> Option<Self> {
        match raw {
            0 => Some(Unit::W),
            1 => Some(Unit::A),
            2 => Some(Unit::V),
            3 => Some(Unit::U),
            _ => None,
        }
    }

    /// The variant's code.
    #[verifier::when_used_as_spec(spec_code)]
    pub fn code(self) -> (code: u8)
        ensures
            code == self.spec_code(),
    {
        match self {
            Unit::W => 0,
            Unit::A => 1,
            Unit::V => 2,
            Unit::U => 3,
        }
    }

    /// What decoding the code `raw`, read at byte `offset` of a buffer,
    /// gives: the variant that it names, or the failure that tells code and
    /// offset.
    pub open spec fn spec_decode(raw: u8, offset: usize) -> Result<Self, Error> {
        match Self::from_code(raw) {
            Some(v) => Ok(v),
            None => Err(Error::InvalidEnumCode { offset, code: raw }),
        }
    }

    /// Decodes the code `raw` that was read at byte `offset` of a buffer.
    /// The offset is only reported: it goes into the failure.
    #[verifier::when_used_as_spec(spec_decode)]
    pub fn decode(raw: u8, offset: usize) -> (r: Result<Self, Error>)
        ensures
            r == Self::spec_decode(raw, offset),
    {
        match Unit::try_from(raw) {
            Ok(v) => Ok(v),
            Err(_) => Err(Error::InvalidEnumCode { offset, code: raw }),
        }
    }

    /// Every code up to the largest decodes, to the variant that has this
    /// code. Every code above the largest fails as an invalid code.
    pub proof fn lemma_decode(raw: u8, offset: usize)
        ensures
            raw <= Self::MAX_CODE ==> Self::spec_decode(raw, offset) is Ok
                && Self::spec_decode(raw, offset)->Ok_0.spec_code() == raw,
            raw > Self::MAX_CODE ==> Self::spec_decode(raw, offset) == Err::<Self, Error>(
                Error::InvalidEnumCode { offset, code: raw },
            ),
    {
    }

    /// The code of every variant is at most the largest, and decodes to the
    /// variant.
    pub proof fn lemma_code(self, offset: usize)
        ensures
            self.spec_code() <= Self::MAX_CODE,
            Self::spec_decode(self.spec_code(), offset) == Ok::<Self, Error>(self),
    {
    }
}

impl TryFrom<u8> for Unit {
    type Error = ();

    /// The variant that the code `raw` names. What it returns is stated by
    /// `try_from_spec` below, which Verus holds this body to.
    fn try_from(raw: u8) -> (r: Result<Self, ()>) {
        match raw {
            0 => Ok(Unit::W),
            1 => Ok(Unit::A),
            2 => Ok(Unit::V),
            3 => Ok(Unit::U),
            _ => Err(()),
        }
    }
}

impl vstd::std_specs::convert::TryFromSpecImpl<u8> for Unit {
    open spec fn obeys_try_from_spec() -> bool {
        true
    }

    /// The variant that `raw` names; a failure where it names none.
    open spec fn try_from_spec(raw: u8) -> Result<Self, ()> {
        match Self::from_code(raw) {
            Some(v) => Ok(v),
            None => Err(()),
        }
    }
}

} // verus!
