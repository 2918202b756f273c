//! Extraction of the samples that lie behind the header.

use vstd::prelude::*;
use vstd::slice::slice_to_vec;
use crate::cursor::Cursor;
use crate::error::{Error, Stage};
use crate::layout::{ch1_span, ch2_span, logic_span, samples_of, words_at};
use crate::model::{RawData, WaveformHeader};

verus! {

/// Reads the block of a channel: `points` samples, `skip` bytes to pass
/// over, and the sentinel.
fn channel_block<'a>(c: Cursor<'a>, points: u32, skip: u32) -> (r: Option<
    (Vec<u8>, Cursor<'a>),
>)
    ensures
        r is Some <==> c.has(points + skip + 4),
        r matches Some((samples, next)) ==> samples@ == c.buffer().subrange(
            c.pos() as int,
            c.pos() + points,
        ) && c.advances_to(next, points + skip + 4),
{
    let (taken, c) = c.take(points as usize)?;
    let c = c.skip(skip as usize)?;
    let c = c.skip(4)?;
    Some((slice_to_vec(taken), c))
}

/// Reads `count` little-endian 16-bit words.
fn logic_words<'a>(c: Cursor<'a>, count: u32) -> (r: Option<(Vec<u16>, Cursor<'a>)>)
    ensures
        r is Some <==> c.has(2 * count),
        r matches Some((words, next)) ==> words@ == words_at(
            c.buffer(),
            c.pos() as int,
            count as nat,
        ) && c.advances_to(next, 2 * count),
{
    proof {
        use_type_invariant(&c);
        c.lemma_in_bounds();
    }
    let mut words: Vec<u16> = Vec::new();
    let mut cur = c;
    let mut i: u32 = 0;
    while i < count
        invariant
            i <= count,
            c.advances_to(cur, 2 * i),
            c.has(2 * i),
            words@ == words_at(c.buffer(), c.pos() as int, i as nat),
        decreases count - i,
    {
        match cur.le_u16() {
            Some((word, next)) => {
                words.push(word);
                cur = next;
                i = i + 1;
                assert(words@ =~= words_at(c.buffer(), c.pos() as int, i as nat));
            },
            None => {
                return None;
            },
        }
    }
    Some((words, cur))
}

/// Reads the samples of the enabled parts of a capture: channel 1, then
/// channel 2, then the logic analyzer. A part that is disabled takes no
/// bytes and gives no samples.
///
/// `c` stands behind the header that `header` was decoded from.
pub fn raw_data<'a>(c: Cursor<'a>, header: &WaveformHeader) -> (r: Result<
    (RawData, Cursor<'a>),
    Error,
>)
    ensures
        match samples_of(c.buffer(), c.pos() as int, *header) {
            Ok(samples) => r matches Ok((data, next)) && data@ == samples && c.advances_to(
                next,
                ch1_span(*header) + ch2_span(*header) + logic_span(*header),
            ),
            Err(e) => r == Err::<(RawData, Cursor<'a>), Error>(e),
        },
{
    proof {
        use_type_invariant(&c);
        c.lemma_in_bounds();
    }
    let (ch1, c) = if header.ch1.enabled {
        channel_block(c, header.ch1_points, header.ch1_skip).ok_or(
            Error::Truncated { stage: Stage::Channel1 },
        )?
    } else {
        (Vec::new(), c)
    };
    let (ch2, c) = if header.ch2.enabled {
        channel_block(c, header.ch2_points, header.ch1_skip).ok_or(
            Error::Truncated { stage: Stage::Channel2 },
        )?
    } else {
        (Vec::new(), c)
    };
    let (logic, c) = if header.logic.enabled {
        logic_words(c, header.ch1_points).ok_or(Error::Truncated { stage: Stage::Logic })?
    } else {
        (Vec::new(), c)
    };
    Ok((RawData { ch1, ch2, logic }, c))
}

} // verus!
