use vstd::prelude::*;
use crate::data_format::DataFormat;
use crate::msrx_tool_error::{ErrorView, MsrxToolError};
use crate::raw_data::RawData;
use crate::track_block::{counted, counted_segment, is_marker, is_terminator, slice_of, BlockView};
use crate::track_data::{TrackData, TrackDataView};
use crate::track_status::TrackStatus;
use crate::transport::{append_packet, reassembled};

verus! {

/// The three tracks as raw bits, with the packets they were read from.
#[derive(Debug)]
pub struct RawTracksData {
    pub raw_data: Vec<RawData>,
    pub track1: TrackData,
    pub track2: TrackData,
    pub track3: TrackData,
    pub status: TrackStatus,
}

/// The bytes of each packet of a run.
pub open spec fn raw_packet_bytes(packets: Seq<RawData>) -> Seq<Seq<u8>> {
    Seq::new(packets.len(), |i: int| packets[i].raw_data@)
}

/// A track of raw bits.
pub open spec fn raw_track(data: Seq<u8>) -> TrackDataView {
    TrackDataView { data, format: DataFormat::Raw }
}

impl RawTracksData {
    /// The tracks are the three of `block`, as raw bits, and the packets are `packets`.
    pub open spec fn holds(&self, block: BlockView, packets: Seq<RawData>) -> bool {
        &&& self.raw_data@ == packets
        &&& self.track1@ == raw_track(block.track1)
        &&& self.track2@ == raw_track(block.track2)
        &&& self.track3@ == raw_track(block.track3)
        &&& self.status == block.status
    }

    /// One counted segment: the marker of `track` at `at`, a length byte and
    /// that many bytes.
    fn read_segment(frame: &Vec<u8>, at: usize, track: u8) -> (segment: Option<(Vec<u8>, usize)>)
        ensures
            match counted_segment(frame@, at as int, track) {
                Some((bytes, next)) => segment is Some && segment.unwrap().0@ == bytes
                    && segment.unwrap().1 == next,
                None => segment is None,
            },
    {
        if !is_marker(frame, at, track) {
            return None;
        }
        let n: usize = frame.len();
        if n - at <= 2 {
            return None;
        }
        let track_len: usize = frame[at + 2] as usize;
        if n - at - 3 < track_len {
            return None;
        }
        let read_index: usize = at + 3;
        Some((slice_of(frame, read_index, read_index + track_len), read_index + track_len))
    }

    /// Puts the packets of one response together and reads the three
    /// counted segments and the status out of the frame.
    pub fn try_from(raw_datas: Vec<RawData>) -> (result: Result<Self, MsrxToolError>)
        ensures
            match counted(reassembled(raw_packet_bytes(raw_datas@))) {
                Some(block) => result is Ok && result.unwrap().holds(block, raw_datas@),
                None => result is Err && result.unwrap_err()@ == ErrorView::RawDataNotCardData,
            },
    {
        let mut combined_raw_data: Vec<u8> = Vec::new();
        let mut k: usize = 0;
        while k < raw_datas.len()
            invariant
                k <= raw_datas.len(),
                combined_raw_data@ == reassembled(raw_packet_bytes(raw_datas@).take(k as int)),
            decreases raw_datas.len() - k,
        {
            let ghost before = raw_packet_bytes(raw_datas@).take(k as int);
            let ghost after = raw_packet_bytes(raw_datas@).take(k as int + 1);
            assert(after.drop_last() =~= before);
            assert(after.last() == raw_datas@[k as int].raw_data@);
            append_packet(&mut combined_raw_data, &raw_datas[k].raw_data, k == 0);
            assert(combined_raw_data@ =~= reassembled(after));
            k += 1;
        }
        assert(raw_packet_bytes(raw_datas@).take(raw_datas.len() as int) =~= raw_packet_bytes(
            raw_datas@,
        ));

        let n: usize = combined_raw_data.len();
        if n < 3 || combined_raw_data[1] != 0x1b || combined_raw_data[2] != 0x73 {
            return Err(MsrxToolError::RawDataNotCardData);
        }
        let (track1, at2) = match Self::read_segment(&combined_raw_data, 3, 1) {
            Some(found) => found,
            None => return Err(MsrxToolError::RawDataNotCardData),
        };
        let (track2, at3) = match Self::read_segment(&combined_raw_data, at2, 2) {
            Some(found) => found,
            None => return Err(MsrxToolError::RawDataNotCardData),
        };
        let (track3, read_index) = match Self::read_segment(&combined_raw_data, at3, 3) {
            Some(found) => found,
            None => return Err(MsrxToolError::RawDataNotCardData),
        };
        // Confirm the ending sequence 3F 1C 1B
        if !is_terminator(&combined_raw_data, read_index) || n - read_index <= 3 {
            return Err(MsrxToolError::RawDataNotCardData);
        }
        let status = TrackStatus::from(combined_raw_data[read_index + 3]);

        Ok(
            RawTracksData {
                raw_data: raw_datas,
                track1: TrackData { data: track1, format: DataFormat::Raw },
                track2: TrackData { data: track2, format: DataFormat::Raw },
                track3: TrackData { data: track3, format: DataFormat::Raw },
                status,
            },
        )
    }

    /// The tracks of a response that fits into one packet.
    pub fn try_from_packet(raw_device_data: RawData) -> (result: Result<Self, MsrxToolError>)
        ensures
            match counted(raw_device_data.raw_data@) {
                Some(block) => result is Ok && result.unwrap().holds(block, seq![raw_device_data]),
                None => result is Err && result.unwrap_err()@ == ErrorView::RawDataNotCardData,
            },
    {
        let packets: Vec<RawData> = vec![raw_device_data];
        assert(packets@ =~= seq![raw_device_data]);
        assert(raw_packet_bytes(packets@) =~= seq![raw_device_data.raw_data@]);
        assert(reassembled(seq![raw_device_data.raw_data@]) == raw_device_data.raw_data@);
        Self::try_from(packets)
    }
}

} // verus!
