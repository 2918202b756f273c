//! What holds of the decoder as a whole.
//!
//! Each statement is over [`crate::layout`], which the decoders are
//! verified against: what is proved here of `capture_of` holds of every
//! result of [`crate::parse`].

use vstd::prelude::*;
use crate::codes::{Coupling, Source, TriggerMode};
use crate::error::{Error, Stage};
use crate::layout::{
    capture_of, ch1_span, ch2_span, header_of, logic_at, logic_span, magic, samples_of,
    trigger_at, words_at, HEADER_LEN,
};
use crate::model::{TriggerHeader, WaveformDataView, WaveformHeader};
use crate::wire::{differs, u32_at};

verus! {

/// Decoding is a function of the bytes: two buffers that hold the same
/// bytes decode to the same capture, or fail in the same way.
pub proof fn lemma_same_bytes_same_result(a: Seq<u8>, b: Seq<u8>)
    requires
        a.len() == b.len(),
        forall|i: int| 0 <= i < a.len() ==> a[i] == b[i],
    ensures
        capture_of(a) == capture_of(b),
{
    assert(a =~= b);
}

/// The three codes at the head of a trigger block: the first that lies
/// above the largest code of its enum fails the block, as an invalid code
/// at the offset where it lies; where none does, the block decodes.
pub proof fn lemma_trigger_codes(s: Seq<u8>, at: int)
    requires
        0 <= at,
        at + 2 <= usize::MAX,
    ensures
        s[at] > TriggerMode::MAX_CODE ==> trigger_at(s, at) == Err::<TriggerHeader, Error>(
            Error::InvalidEnumCode { offset: at as usize, code: s[at] },
        ),
        s[at] <= TriggerMode::MAX_CODE && s[at + 1] > Source::MAX_CODE ==> trigger_at(s, at)
            == Err::<TriggerHeader, Error>(
            Error::InvalidEnumCode { offset: (at + 1) as usize, code: s[at + 1] },
        ),
        s[at] <= TriggerMode::MAX_CODE && s[at + 1] <= Source::MAX_CODE && s[at + 2]
            > Coupling::MAX_CODE ==> trigger_at(s, at) == Err::<TriggerHeader, Error>(
            Error::InvalidEnumCode { offset: (at + 2) as usize, code: s[at + 2] },
        ),
        s[at] <= TriggerMode::MAX_CODE && s[at + 1] <= Source::MAX_CODE && s[at + 2]
            <= Coupling::MAX_CODE ==> trigger_at(s, at) is Ok,
{
}

/// The rolling-mode correction, in a header that decodes: without rolling
/// mode the point count of channel 1 is the raw count less four and
/// nothing is passed over; in rolling mode the count is the raw count less
/// `roll_stop + 6`, and `roll_stop + 2` bytes are passed over.
pub proof fn lemma_rolling_mode(s: Seq<u8>)
    requires
        header_of(s) is Ok,
    ensures
        ({
            let h = header_of(s)->Ok_0;
            let raw_points = u32_at(s, 28);
            &&& h.roll_stop == u32_at(s, 20)
            &&& h.roll_stop == 0 ==> h.ch1_points == raw_points - 4 && h.ch1_skip == 0
            &&& h.roll_stop != 0 ==> h.ch1_points == raw_points - h.roll_stop - 6 && h.ch1_skip
                == h.roll_stop + 2
        }),
{
}

/// A header whose raw point count is too small for the rolling-mode
/// correction does not decode: without rolling mode a count below four,
/// in rolling mode a count below `roll_stop + 6`.
pub proof fn lemma_points_below_zero(s: Seq<u8>)
    requires
        u32_at(s, 20) == 0 ==> u32_at(s, 28) < 4,
        u32_at(s, 20) != 0 ==> u32_at(s, 28) < u32_at(s, 20) + 6,
    ensures
        header_of(s) is Err,
        capture_of(s) is Err,
        !differs(s, magic()) && s.len() >= HEADER_LEN && trigger_at(s, 143) is Ok && trigger_at(
            s,
            183,
        ) is Ok ==> header_of(s) == Err::<WaveformHeader, Error>(Error::ArithmeticUnderflow),
{
}

/// The point count of channel 2, in a header that decodes: where the
/// buffer holds a count other than zero, that count, whether channel 1 is
/// enabled or not; where it holds zero and channel 1 is enabled, the
/// corrected count of channel 1.
pub proof fn lemma_channel2_points(s: Seq<u8>)
    requires
        header_of(s) is Ok,
    ensures
        ({
            let h = header_of(s)->Ok_0;
            let raw_points = u32_at(s, 229);
            &&& raw_points != 0 ==> h.ch2_points == raw_points
            &&& raw_points == 0 && h.ch1.enabled ==> h.ch2_points == h.ch1_points
            &&& raw_points == 0 && !h.ch1.enabled ==> h.ch2_points == 0
        }),
{
}

/// A part that is disabled takes no bytes and gives no samples; the part
/// behind it begins where it would have begun.
pub proof fn lemma_disabled_parts(s: Seq<u8>, start: int, h: WaveformHeader)
    requires
        samples_of(s, start, h) is Ok,
    ensures
        ({
            let d = samples_of(s, start, h)->Ok_0;
            &&& !h.ch1.enabled ==> ch1_span(h) == 0 && d.ch1.len() == 0
            &&& !h.ch2.enabled ==> ch2_span(h) == 0 && d.ch2.len() == 0
            &&& !h.logic.enabled ==> logic_span(h) == 0 && d.logic.len() == 0
            &&& !h.ch1.enabled && h.ch2.enabled ==> d.ch2 == s.subrange(
                start,
                start + h.ch2_points,
            )
            &&& !h.ch1.enabled && !h.ch2.enabled && h.logic.enabled ==> d.logic == words_at(
                s,
                start,
                h.ch1_points as nat,
            )
        }),
{
}

/// The samples of a part that is enabled are as many as the header says,
/// and the buffer holds every block in full.
pub proof fn lemma_sample_counts(s: Seq<u8>, start: int, h: WaveformHeader)
    requires
        0 <= start,
        samples_of(s, start, h) is Ok,
    ensures
        ({
            let d = samples_of(s, start, h)->Ok_0;
            &&& h.ch1.enabled ==> d.ch1.len() == h.ch1_points
            &&& h.ch2.enabled ==> d.ch2.len() == h.ch2_points
            &&& h.logic.enabled ==> d.logic.len() == h.ch1_points
            &&& start + ch1_span(h) + ch2_span(h) + logic_span(h) <= s.len()
        }),
{
}

/// A buffer that ends inside the header is truncated: the prefix of fewer
/// than 276 bytes of a buffer fails as truncated in the header, unless the
/// prefix disagrees with the magic tag or holds all of a trigger block
/// with a code that names no variant.
pub proof fn lemma_short_header(s: Seq<u8>, n: int)
    requires
        0 <= n <= s.len(),
        n < HEADER_LEN,
        !differs(s.take(n), magic()),
        n >= 183 ==> trigger_at(s, 143) is Ok,
        n >= 223 ==> trigger_at(s, 183) is Ok,
    ensures
        header_of(s.take(n)) == Err::<WaveformHeader, Error>(
            Error::Truncated { stage: Stage::Header },
        ),
        capture_of(s.take(n)) == Err::<WaveformDataView, Error>(
            Error::Truncated { stage: Stage::Header },
        ),
{
}

/// Cutting a capture inside its header: where a buffer decodes, each of
/// its prefixes of fewer than 276 bytes fails as truncated in the header.
pub proof fn lemma_cut_capture(s: Seq<u8>, n: int)
    requires
        header_of(s) is Ok,
        0 <= n < HEADER_LEN,
    ensures
        capture_of(s.take(n)) == Err::<WaveformDataView, Error>(
            Error::Truncated { stage: Stage::Header },
        ),
{
    let p = s.take(n);
    assert(!differs(p, magic())) by {
        if differs(p, magic()) {
            let i = choose|i: int| 0 <= i < p.len() && i < magic().len() && p[i] != magic()[i];
            assert(s[i] != magic()[i]);
        }
    }
    lemma_short_header(s, n);
}

/// Bytes behind the last sample block do not count: a buffer that decodes
/// decodes to the same capture with any bytes added at its end.
pub proof fn lemma_trailing_bytes(s: Seq<u8>, more: Seq<u8>)
    requires
        capture_of(s) is Ok,
    ensures
        capture_of(s + more) == capture_of(s),
{
    let t = s + more;
    assert(differs(t, magic()) == differs(s, magic())) by {
        if differs(t, magic()) {
            let i = choose|i: int| 0 <= i < t.len() && i < magic().len() && t[i] != magic()[i];
            assert(s[i] != magic()[i]);
        }
        if differs(s, magic()) {
            let i = choose|i: int| 0 <= i < s.len() && i < magic().len() && s[i] != magic()[i];
            assert(t[i] != magic()[i]);
        }
    }
    let h = header_of(s)->Ok_0;
    let a = samples_of(s, HEADER_LEN as int, h)->Ok_0;
    let b = samples_of(t, HEADER_LEN as int, h)->Ok_0;
    assert(a.ch1 =~= b.ch1);
    assert(a.ch2 =~= b.ch2);
    assert(a.logic =~= b.logic);
}

} // verus!
