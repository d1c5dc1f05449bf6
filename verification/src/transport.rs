//! Cutting a command into transfers and putting a response back together.
//!
//! A command travels in chunks of at most 63 bytes, each behind a header
//! byte: bit 7 always set, bit 6 set on the chunk that holds the command's
//! last byte, the six low bits the number of bytes in the chunk. A response
//! arrives as 64-byte packets; the first is kept whole and every later one
//! gives up its header byte.

use vstd::prelude::*;
use crate::original_device_data::OriginalDeviceData;
use crate::packet::{header_flag, last_flag, payload_length};

verus! {

/// Number of chunks that a command of `n` bytes takes: `n / 63`, rounded up.
pub open spec fn chunk_count(n: int) -> int {
    (n + 62) / 63
}

/// Number of command bytes in chunk `k` of a command of `n` bytes.
pub open spec fn chunk_length(n: int, k: int) -> int {
    if 63 * (k + 1) <= n {
        63
    } else {
        n - 63 * k
    }
}

/// Header byte of chunk `k` of a command of `n` bytes.
pub open spec fn chunk_header(n: int, k: int) -> u8 {
    (128 + (if k == chunk_count(n) - 1 {
        64int
    } else {
        0int
    }) + chunk_length(n, k)) as u8
}

/// Chunk `k` of a command: its header byte and its share of the bytes.
pub open spec fn chunk(command: Seq<u8>, k: int) -> Seq<u8> {
    seq![chunk_header(command.len() as int, k)] + command.subrange(
        63 * k,
        63 * k + chunk_length(command.len() as int, k),
    )
}

/// All chunks of a command, in the order in which they are sent.
pub open spec fn chunks(command: Seq<u8>) -> Seq<Seq<u8>> {
    Seq::new(chunk_count(command.len() as int) as nat, |k: int| chunk(command, k))
}

/// The bytes of each chunk of a run.
pub open spec fn chunk_views(parts: Seq<Vec<u8>>) -> Seq<Seq<u8>> {
    Seq::new(parts.len(), |k: int| parts[k]@)
}

/// What a run of chunks carries once the header bytes are taken off.
pub open spec fn payloads(parts: Seq<Seq<u8>>) -> Seq<u8>
    decreases parts.len(),
{
    if parts.len() == 0 {
        Seq::empty()
    } else {
        payloads(parts.drop_last()) + parts.last().skip(1)
    }
}

/// The frame that a run of packets makes up: the first packet whole, then
/// each later packet without its first byte, in the order of arrival.
pub open spec fn reassembled(packets: Seq<Seq<u8>>) -> Seq<u8>
    decreases packets.len(),
{
    if packets.len() == 0 {
        Seq::empty()
    } else if packets.len() == 1 {
        packets[0]
    } else {
        reassembled(packets.drop_last()) + packets.last().skip(1)
    }
}

/// The bytes of each packet of a run.
pub open spec fn packet_bytes(packets: Seq<OriginalDeviceData>) -> Seq<Seq<u8>> {
    Seq::new(packets.len(), |i: int| packets[i].data@)
}

proof fn lemma_payloads_prefix(command: Seq<u8>, k: int)
    requires
        0 <= k <= chunk_count(command.len() as int),
    ensures
        payloads(chunks(command).take(k)) == command.take(
            if 63 * k <= command.len() {
                63 * k
            } else {
                command.len() as int
            },
        ),
    decreases k,
{
    let all = chunks(command);
    let n = command.len() as int;
    if k == 0 {
        assert(payloads(all.take(0)) =~= command.take(0));
    } else {
        lemma_payloads_prefix(command, k - 1);
        let parts = all.take(k);
        assert(parts.drop_last() =~= all.take(k - 1));
        assert(parts.last() == chunk(command, k - 1));
        let len = chunk_length(n, k - 1);
        assert(63 * (k - 1) < n);
        assert(chunk(command, k - 1).skip(1) =~= command.subrange(63 * (k - 1), 63 * (k - 1) + len));
        let upto = if 63 * k <= n {
            63 * k
        } else {
            n
        };
        assert(63 * (k - 1) + len == upto);
        assert(command.take(63 * (k - 1)) + command.subrange(63 * (k - 1), upto) =~= command.take(
            upto,
        ));
    }
}

/// A command of `N` bytes goes out in `N / 63` chunks, rounded up; every
/// header byte has bit 7 set, has bit 6 set exactly on the last chunk, and
/// counts the bytes of its chunk in its low bits; and the chunks, header
/// bytes taken off and put end to end, are the command again.
pub proof fn lemma_chunks_carry_command(command: Seq<u8>)
    ensures
        chunks(command).len() == chunk_count(command.len() as int),
        command.len() % 63 == 0 ==> chunk_count(command.len() as int) * 63 == command.len(),
        command.len() % 63 != 0 ==> chunk_count(command.len() as int) == command.len() / 63 + 1,
        forall|k: int|
            #![trigger chunks(command)[k]]
            0 <= k < chunks(command).len() ==> {
                &&& header_flag(chunks(command)[k][0])
                &&& last_flag(chunks(command)[k][0]) <==> k == chunks(command).len() - 1
                &&& payload_length(chunks(command)[k][0]) == chunks(command)[k].len() - 1
                &&& 1 <= chunks(command)[k].len() - 1 <= 63
            },
        payloads(chunks(command)) == command,
{
    let n = command.len() as int;
    let all = chunks(command);
    lemma_payloads_prefix(command, chunk_count(n));
    assert(all.take(chunk_count(n)) =~= all);
    assert(command.take(n) =~= command);
    assert forall|k: int| #![trigger chunks(command)[k]] 0 <= k < all.len() implies {
        &&& header_flag(all[k][0])
        &&& last_flag(all[k][0]) <==> k == all.len() - 1
        &&& payload_length(all[k][0]) == all[k].len() - 1
        &&& 1 <= all[k].len() - 1 <= 63
    } by {
        assert(all[k] == chunk(command, k));
        let len = chunk_length(n, k);
        assert(1 <= len <= 63);
        assert(all[k][0] == chunk_header(n, k));
    }
}

/// In a reassembled frame the first packet stands whole at the front, and
/// byte `i` (from 1 on) of packet `k` (from 1 on) stands at position
/// `64 + 63 * (k - 1) + (i - 1)`.
pub proof fn lemma_reassembled_layout(packets: Seq<Seq<u8>>)
    requires
        packets.len() >= 1,
        forall|k: int| 0 <= k < packets.len() ==> (#[trigger] packets[k]).len() == 64,
    ensures
        reassembled(packets).len() == 64 + 63 * (packets.len() - 1),
        reassembled(packets).take(64) == packets[0],
        forall|k: int, i: int|
            1 <= k < packets.len() && 1 <= i < 64 ==> reassembled(packets)[64 + 63 * (k - 1) + (i
                - 1)] == #[trigger] packets[k][i],
    decreases packets.len(),
{
    if packets.len() == 1 {
        assert(reassembled(packets).take(64) =~= packets[0]);
    } else {
        let front = packets.drop_last();
        lemma_reassembled_layout(front);
        let whole = reassembled(packets);
        assert(whole == reassembled(front) + packets.last().skip(1));
        assert(whole.take(64) =~= reassembled(front).take(64));
        assert forall|k: int, i: int| 1 <= k < packets.len() && 1 <= i < 64 implies whole[64 + 63
            * (k - 1) + (i - 1)] == #[trigger] packets[k][i] by {
            if k < packets.len() - 1 {
                assert(front[k] == packets[k]);
                assert(reassembled(front)[64 + 63 * (k - 1) + (i - 1)] == front[k][i]);
            } else {
                assert(packets.last().skip(1)[i - 1] == packets[k][i]);
            }
        }
    }
}

/// The chunks in which `packets` is to be sent, in order. Their header
/// bytes taken off, they carry `packets` and nothing else.
pub fn command_chunks(packets: &Vec<u8>) -> (out: Vec<Vec<u8>>)
    ensures
        chunk_views(out@) == chunks(packets@),
        out.len() == chunk_count(packets.len() as int),
        forall|k: int| 0 <= k < out.len() ==> (#[trigger] out[k])@ == chunk(packets@, k),
        payloads(chunk_views(out@)) == packets@,
{
    let n: usize = packets.len();
    let mut out: Vec<Vec<u8>> = Vec::new();
    let mut written: usize = 0;
    while written < n
        invariant
            n == packets.len(),
            written <= n,
            written < n ==> written == 63 * out.len(),
            written == n ==> out.len() == chunk_count(n as int),
            out.len() <= chunk_count(n as int),
            forall|k: int| 0 <= k < out.len() ==> (#[trigger] out[k])@ == chunk(packets@, k),
        decreases n - written,
    {
        let ghost k = out.len() as int;
        let remaining: usize = n - written;
        let is_last: bool = remaining <= 63;
        let length: usize = if is_last { remaining } else { 63 };
        let mut header: u8 = 128;
        if is_last {
            header += 64;
        }
        header += length as u8;
        assert(is_last <==> k == chunk_count(n as int) - 1);
        assert(length == chunk_length(n as int, k));
        assert(header == chunk_header(n as int, k));
        let mut part: Vec<u8> = Vec::new();
        part.push(header);
        let mut i: usize = 0;
        while i < length
            invariant
                i <= length,
                written + length <= n,
                n == packets.len(),
                part@ == seq![header] + packets@.subrange(written as int, written + i),
            decreases length - i,
        {
            part.push(packets[written + i]);
            assert(part@ =~= seq![header] + packets@.subrange(written as int, written + i + 1));
            i += 1;
        }
        assert(part@ == chunk(packets@, k));
        out.push(part);
        written += length;
    }
    proof {
        assert(chunk_views(out@) =~= chunks(packets@));
        lemma_chunks_carry_command(packets@);
    }
    out
}

/// Adds one packet to a frame under construction: the first packet whole,
/// any other without its header byte.
pub fn append_packet(frame: &mut Vec<u8>, data: &[u8; 64], first: bool)
    ensures
        first ==> final(frame)@ == old(frame)@ + data@,
        !first ==> final(frame)@ == old(frame)@ + data@.skip(1),
{
    let mut i: usize = if first { 0 } else { 1 };
    let ghost start = i as int;
    while i < 64
        invariant
            start <= i <= 64,
            start == 0 || start == 1,
            frame@ == old(frame)@ + data@.subrange(start, i as int),
        decreases 64 - i,
    {
        frame.push(data[i]);
        assert(frame@ =~= old(frame)@ + data@.subrange(start, i as int + 1));
        i += 1;
    }
    assert(data@.subrange(0, 64) =~= data@);
    assert(data@.subrange(1, 64) =~= data@.skip(1));
}

/// The frame that the packets of one response make up.
pub fn reassemble(packets: &Vec<OriginalDeviceData>) -> (frame: Vec<u8>)
    ensures
        frame@ == reassembled(packet_bytes(packets@)),
{
    let mut frame: Vec<u8> = Vec::new();
    let mut k: usize = 0;
    while k < packets.len()
        invariant
            k <= packets.len(),
            frame@ == reassembled(packet_bytes(packets@).take(k as int)),
        decreases packets.len() - k,
    {
        let ghost before = packet_bytes(packets@).take(k as int);
        let ghost after = packet_bytes(packets@).take(k as int + 1);
        assert(after.drop_last() =~= before);
        assert(after.last() == packets@[k as int].data@);
        append_packet(&mut frame, &packets[k].data, k == 0);
        assert(frame@ =~= reassembled(after));
        k += 1;
    }
    assert(packet_bytes(packets@).take(packets.len() as int) =~= packet_bytes(packets@));
    frame
}

} // verus!
