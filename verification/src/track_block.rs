//! The framed block that carries the three tracks.
//!
//! A block opens with ESC `s`; each track follows its own marker, ESC and the
//! track number; `?` and the file separator close the block. In a response
//! the device puts its header byte in front and ESC and a status byte behind.

use vstd::prelude::*;
use crate::track_data::padded;
use crate::track_status::{status_of_byte, TrackStatus};

verus! {

/// The three segments of a block and the status that came with it.
pub ghost struct BlockView {
    pub track1: Seq<u8>,
    pub track2: Seq<u8>,
    pub track3: Seq<u8>,
    pub status: TrackStatus,
}

/// The block for three segments: start field, each track behind its marker,
/// end field. A segment without bytes is sent as one zero byte.
pub open spec fn data_block(track1: Seq<u8>, track2: Seq<u8>, track3: Seq<u8>) -> Seq<u8> {
    seq![0x1bu8, 0x73u8] + seq![0x1bu8, 0x01u8] + padded(track1) + seq![0x1bu8, 0x02u8] + padded(
        track2,
    ) + seq![0x1bu8, 0x03u8] + padded(track3) + seq![0x3fu8, 0x1cu8]
}

/// A response that carries `block`: the header byte, the block, ESC, the
/// status byte, and whatever fills the rest of the last packet.
pub open spec fn response_frame(header: u8, block: Seq<u8>, status: u8, rest: Seq<u8>) -> Seq<u8> {
    seq![header] + block + seq![0x1bu8, status] + rest
}

/// The marker of track `track` stands at position `i`.
pub open spec fn marker_at(frame: Seq<u8>, i: int, track: u8) -> bool {
    0 <= i && i + 1 < frame.len() && frame[i] == 0x1b && frame[i + 1] == track
}

/// The marker of one of the three tracks stands at position `i`.
pub open spec fn any_marker_at(frame: Seq<u8>, i: int) -> bool {
    marker_at(frame, i, 1) || marker_at(frame, i, 2) || marker_at(frame, i, 3)
}

/// The end of the block stands at position `i`: `?`, file separator, ESC.
pub open spec fn terminator_at(frame: Seq<u8>, i: int) -> bool {
    0 <= i && i + 2 < frame.len() && frame[i] == 0x3f && frame[i + 1] == 0x1c && frame[i + 2]
        == 0x1b
}

/// A segment ends where a marker or the end of the block begins.
pub open spec fn boundary_at(frame: Seq<u8>, i: int) -> bool {
    any_marker_at(frame, i) || terminator_at(frame, i)
}

/// The first boundary at or after `from`; the length of the frame where
/// there is none.
pub open spec fn next_boundary(frame: Seq<u8>, from: int) -> int
    decreases frame.len() - from,
{
    if from >= frame.len() {
        frame.len() as int
    } else if boundary_at(frame, from) {
        from
    } else {
        next_boundary(frame, from + 1)
    }
}

/// What a scan of `frame` for markers finds. The start field stands at
/// positions 1 and 2 and the marker of track 1 right behind it; each segment
/// runs to the next boundary, which has to be the marker of the next track
/// and, behind track 3, the end of the block with a status byte after it.
/// Anything else is no card data.
pub open spec fn scanned(frame: Seq<u8>) -> Option<BlockView> {
    if frame.len() >= 5 && frame[1] == 0x1b && frame[2] == 0x73 && marker_at(frame, 3, 1) {
        let end1 = next_boundary(frame, 5);
        if marker_at(frame, end1, 2) {
            let end2 = next_boundary(frame, end1 + 2);
            if marker_at(frame, end2, 3) {
                let end3 = next_boundary(frame, end2 + 2);
                if terminator_at(frame, end3) && end3 + 3 < frame.len() {
                    Some(
                        BlockView {
                            track1: frame.subrange(5, end1),
                            track2: frame.subrange(end1 + 2, end2),
                            track3: frame.subrange(end2 + 2, end3),
                            status: status_of_byte(frame[end3 + 3]),
                        },
                    )
                } else {
                    None
                }
            } else {
                None
            }
        } else {
            None
        }
    } else {
        None
    }
}

/// One length-prefixed segment: the marker of `track` at `at`, a length byte,
/// and that many bytes. Gives the position behind the segment.
pub open spec fn counted_segment(frame: Seq<u8>, at: int, track: u8) -> Option<(Seq<u8>, int)> {
    if marker_at(frame, at, track) && at + 2 < frame.len() && at + 3 + frame[at + 2]
        <= frame.len() {
        Some((frame.subrange(at + 3, at + 3 + frame[at + 2]), at + 3 + frame[at + 2]))
    } else {
        None
    }
}

/// What `frame` holds when each track comes with a length byte behind its
/// marker, as the device sends raw bits: start field at positions 1 and 2,
/// the three counted segments in order, the end of the block and the status
/// byte. Anything else is no card data.
pub open spec fn counted(frame: Seq<u8>) -> Option<BlockView> {
    if frame.len() >= 3 && frame[1] == 0x1b && frame[2] == 0x73 {
        match counted_segment(frame, 3, 1) {
            Some((track1, at2)) => match counted_segment(frame, at2, 2) {
                Some((track2, at3)) => match counted_segment(frame, at3, 3) {
                    Some((track3, end)) => if terminator_at(frame, end) && end + 3 < frame.len() {
                        Some(
                            BlockView { track1, track2, track3, status: status_of_byte(frame[end + 3]) },
                        )
                    } else {
                        None
                    },
                    None => None,
                },
                None => None,
            },
            None => None,
        }
    } else {
        None
    }
}

/// No boundary begins inside `segment` when `follow` comes right behind it.
pub open spec fn plain_before(segment: Seq<u8>, follow: Seq<u8>) -> bool {
    forall|i: int| 0 <= i < segment.len() ==> !boundary_at(segment + follow, i)
}

/// The three segments as a block carries them, with its status.
pub open spec fn carried(track1: Seq<u8>, track2: Seq<u8>, track3: Seq<u8>, status: u8) -> BlockView {
    BlockView {
        track1: padded(track1),
        track2: padded(track2),
        track3: padded(track3),
        status: status_of_byte(status),
    }
}

/// No boundary begins inside any of the three segments once they stand in a block.
pub open spec fn plain_segments(track1: Seq<u8>, track2: Seq<u8>, track3: Seq<u8>) -> bool {
    &&& plain_before(padded(track1), seq![0x1bu8, 0x02u8])
    &&& plain_before(padded(track2), seq![0x1bu8, 0x03u8])
    &&& plain_before(padded(track3), seq![0x3fu8, 0x1cu8, 0x1bu8])
}

/// No byte of `segment` is ESC or the file separator.
pub open spec fn free_of_escapes(segment: Seq<u8>) -> bool {
    forall|i: int| 0 <= i < segment.len() ==> #[trigger] segment[i] != 0x1b && segment[i] != 0x1c
}

proof fn lemma_next_boundary_is(frame: Seq<u8>, from: int, end: int)
    requires
        0 <= from <= end <= frame.len(),
        forall|i: int| from <= i < end ==> !boundary_at(frame, i),
        end == frame.len() || boundary_at(frame, end),
    ensures
        next_boundary(frame, from) == end,
    decreases end - from,
{
    if from < end {
        lemma_next_boundary_is(frame, from + 1, end);
    }
}

proof fn lemma_segment_in_frame(frame: Seq<u8>, at: int, segment: Seq<u8>, follow: Seq<u8>)
    requires
        0 <= at,
        at + segment.len() + follow.len() <= frame.len(),
        follow.len() >= 2,
        frame.subrange(at, at + segment.len() + follow.len()) == segment + follow,
        plain_before(segment, follow),
    ensures
        forall|i: int| at <= i < at + segment.len() ==> !boundary_at(frame, i),
{
    let window = segment + follow;
    assert forall|i: int| at <= i < at + segment.len() implies !boundary_at(frame, i) by {
        let j = i - at;
        assert(!boundary_at(window, j));
        assert(frame[i] == window[j]);
        assert(frame[i + 1] == window[j + 1]);
        assert(frame[i + 2] == window[j + 2]);
    }
}

/// Reading undoes building. Take the block that is built from three
/// segments and the response in which the device hands that block back,
/// behind any header byte and with any status byte and filling. Where no
/// marker and no end of block begins inside a segment, the scan finds the
/// three segments as the block carries them, and the status of the status
/// byte.
pub proof fn lemma_scan_finds_built_block(
    track1: Seq<u8>,
    track2: Seq<u8>,
    track3: Seq<u8>,
    header: u8,
    status: u8,
    rest: Seq<u8>,
)
    requires
        plain_segments(track1, track2, track3),
    ensures
        scanned(response_frame(header, data_block(track1, track2, track3), status, rest)) == Some(
            carried(track1, track2, track3, status),
        ),
{
    let one = padded(track1);
    let two = padded(track2);
    let three = padded(track3);
    let a = one.len() as int;
    let b = two.len() as int;
    let c = three.len() as int;
    let block = data_block(track1, track2, track3);
    let frame = response_frame(header, block, status, rest);
    assert(block.len() == 10 + a + b + c);
    assert(frame.len() == 13 + a + b + c + rest.len());
    assert(frame.subrange(1, 11 + a + b + c) =~= block);
    assert(frame.subrange(0, 5) =~= seq![header, 0x1bu8, 0x73u8, 0x1bu8, 0x01u8]);
    assert(frame[1] == 0x1b && frame[2] == 0x73 && frame[3] == 0x1b && frame[4] == 0x01) by {
        let head = frame.subrange(0, 5);
        assert(head[1] == frame[1] && head[2] == frame[2] && head[3] == frame[3] && head[4]
            == frame[4]);
    }
    let end1 = 5 + a;
    let end2 = 7 + a + b;
    let end3 = 9 + a + b + c;
    assert(frame.subrange(5, end1 + 2) =~= one + seq![0x1bu8, 0x02u8]);
    assert(frame.subrange(end1 + 2, end2 + 2) =~= two + seq![0x1bu8, 0x03u8]);
    assert(frame.subrange(end2 + 2, end3 + 3) =~= three + seq![0x3fu8, 0x1cu8, 0x1bu8]);
    assert(frame[end1] == 0x1b && frame[end1 + 1] == 0x02) by {
        let w = frame.subrange(5, end1 + 2);
        assert(w[a] == frame[end1] && w[a + 1] == frame[end1 + 1]);
    }
    assert(frame[end2] == 0x1b && frame[end2 + 1] == 0x03) by {
        let w = frame.subrange(end1 + 2, end2 + 2);
        assert(w[b] == frame[end2] && w[b + 1] == frame[end2 + 1]);
    }
    assert(frame[end3] == 0x3f && frame[end3 + 1] == 0x1c && frame[end3 + 2] == 0x1b) by {
        let w = frame.subrange(end2 + 2, end3 + 3);
        assert(w[c] == frame[end3] && w[c + 1] == frame[end3 + 1] && w[c + 2] == frame[end3 + 2]);
    }
    assert(frame[end3 + 3] == status);
    lemma_segment_in_frame(frame, 5, one, seq![0x1bu8, 0x02u8]);
    lemma_segment_in_frame(frame, end1 + 2, two, seq![0x1bu8, 0x03u8]);
    lemma_segment_in_frame(frame, end2 + 2, three, seq![0x3fu8, 0x1cu8, 0x1bu8]);
    lemma_next_boundary_is(frame, 5, end1);
    lemma_next_boundary_is(frame, end1 + 2, end2);
    lemma_next_boundary_is(frame, end2 + 2, end3);
    assert(frame.subrange(5, end1) =~= one);
    assert(frame.subrange(end1 + 2, end2) =~= two);
    assert(frame.subrange(end2 + 2, end3) =~= three);
}

/// Segments without ESC and without the file separator hold no boundary:
/// what is built from them is read back as it was. Track text is of that
/// kind, and so is the placeholder.
pub proof fn lemma_escape_free_is_plain(track1: Seq<u8>, track2: Seq<u8>, track3: Seq<u8>)
    requires
        free_of_escapes(track1),
        free_of_escapes(track2),
        free_of_escapes(track3),
    ensures
        plain_segments(track1, track2, track3),
{
    lemma_escape_free_segment_is_plain(track1, seq![0x1bu8, 0x02u8]);
    lemma_escape_free_segment_is_plain(track2, seq![0x1bu8, 0x03u8]);
    lemma_escape_free_segment_is_plain(track3, seq![0x3fu8, 0x1cu8, 0x1bu8]);
}

proof fn lemma_escape_free_segment_is_plain(segment: Seq<u8>, follow: Seq<u8>)
    requires
        free_of_escapes(segment),
        follow.len() >= 2,
        !(follow[0] == 0x1c && follow[1] == 0x1b),
    ensures
        plain_before(padded(segment), follow),
{
    let p = padded(segment);
    let window = p + follow;
    assert forall|i: int| 0 <= i < p.len() implies !boundary_at(window, i) by {
        assert(window[i] == p[i]);
        assert(p[i] != 0x1b);
        if i + 1 < p.len() {
            assert(window[i + 1] == p[i + 1]);
            assert(p[i + 1] != 0x1c);
        } else {
            assert(window[i + 1] == follow[0]);
            assert(window[i + 2] == follow[1]);
        }
    }
}

/// The first boundary at or after `from`.
pub fn find_boundary(frame: &Vec<u8>, from: usize) -> (end: usize)
    requires
        from <= frame.len(),
    ensures
        end == next_boundary(frame@, from as int),
        from <= end <= frame.len(),
{
    let n: usize = frame.len();
    let mut i: usize = from;
    while i < n
        invariant
            n == frame.len(),
            from <= i <= n,
            next_boundary(frame@, from as int) == next_boundary(frame@, i as int),
        decreases n - i,
    {
        let b: u8 = frame[i];
        if b == 0x1b && n - i > 1 && (frame[i + 1] == 1 || frame[i + 1] == 2 || frame[i + 1] == 3) {
            return i;
        }
        if b == 0x3f && n - i > 2 && frame[i + 1] == 0x1c && frame[i + 2] == 0x1b {
            return i;
        }
        i += 1;
    }
    i
}

/// Whether the marker of `track` stands at `at`.
pub fn is_marker(frame: &Vec<u8>, at: usize, track: u8) -> (found: bool)
    ensures
        found == marker_at(frame@, at as int, track),
{
    at < frame.len() && frame.len() - at > 1 && frame[at] == 0x1b && frame[at + 1] == track
}

/// Whether the end of the block stands at `at`.
pub fn is_terminator(frame: &Vec<u8>, at: usize) -> (found: bool)
    ensures
        found == terminator_at(frame@, at as int),
{
    at < frame.len() && frame.len() - at > 2 && frame[at] == 0x3f && frame[at + 1] == 0x1c
        && frame[at + 2] == 0x1b
}

/// The bytes of `frame` from `from` up to, and without, `to`.
pub fn slice_of(frame: &Vec<u8>, from: usize, to: usize) -> (out: Vec<u8>)
    requires
        from <= to <= frame.len(),
    ensures
        out@ == frame@.subrange(from as int, to as int),
{
    let mut out: Vec<u8> = Vec::new();
    let mut i: usize = from;
    while i < to
        invariant
            from <= i <= to,
            to <= frame.len(),
            out@ == frame@.subrange(from as int, i as int),
        decreases to - i,
    {
        out.push(frame[i]);
        assert(out@ =~= frame@.subrange(from as int, i as int + 1));
        i += 1;
    }
    out
}

} // verus!
