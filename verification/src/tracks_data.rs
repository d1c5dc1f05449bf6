use vstd::prelude::*;
use vstd::utf8::encode_utf8;
use crate::data_format::DataFormat;
use crate::iso_data::IsoData;
use crate::msrx_tool_error::{ErrorView, MsrxToolError};
use crate::text::has_char;
use crate::track_block::{
    carried, data_block, find_boundary, free_of_escapes, is_marker, is_terminator,
    lemma_escape_free_is_plain, lemma_scan_finds_built_block, response_frame, scanned, slice_of,
    BlockView,
};
use crate::track_data::{TrackData, TrackDataView};
use crate::track_status::TrackStatus;
use crate::transport::{append_packet, reassembled};

verus! {

const TRACK_1_START_SENTINEL: char = '%';

const TRACK2_3_START_SENTINEL: char = ';';

const TRACK_END_SENTINEL: char = '?';

const TRACK1_MAX_LENGTH: usize = 79;

const TRACK2_MAX_LENGTH: usize = 40;

const TRACK3_MAX_LENGTH: usize = 107;

/// The characters that track 1 takes.
pub const TRACK1_SUPPORTED_ASCII: &'static str =
    " !\"#$%&'()*+,-./0123456789:;<=>?@ABCDEFGHIJKLMNOPQRSTUVWXYZ[\\]^_";

/// The characters that tracks 2 and 3 take.
pub const TRACK2_3_SUPPORTED_ASCII: &'static str = "0123456789:;<=>?";

/// The three tracks of a card and the status that came with them.
#[derive(Debug)]
pub struct TracksData {
    pub track1: TrackData,
    pub track2: TrackData,
    pub track3: TrackData,
    pub status: TrackStatus,
}

/// Mathematical value of the three tracks.
pub ghost struct TracksDataView {
    pub track1: TrackDataView,
    pub track2: TrackDataView,
    pub track3: TrackDataView,
    pub status: TrackStatus,
}

impl View for TracksData {
    type V = TracksDataView;

    open spec fn view(&self) -> TracksDataView {
        TracksDataView {
            track1: self.track1@,
            track2: self.track2@,
            track3: self.track3@,
            status: self.status,
        }
    }
}

/// Three ISO tracks with the given bytes.
pub open spec fn iso_tracks(block: BlockView) -> TracksDataView {
    TracksDataView {
        track1: TrackDataView { data: block.track1, format: DataFormat::Iso },
        track2: TrackDataView { data: block.track2, format: DataFormat::Iso },
        track3: TrackDataView { data: block.track3, format: DataFormat::Iso },
        status: block.status,
    }
}

/// Every byte of `data` is a character of `charset`.
pub open spec fn all_supported(charset: Seq<char>, data: Seq<u8>) -> bool {
    forall|i: int| 0 <= i < data.len() ==> charset.contains(#[trigger] data[i] as char)
}

/// `data` without its first and its last byte.
pub open spec fn between_sentinels(data: Seq<u8>) -> Seq<u8> {
    if data.len() >= 2 {
        data.subrange(1, data.len() - 1)
    } else {
        Seq::empty()
    }
}

/// What becomes of the text given for one track. A track that was not given,
/// or given as empty text, is the one-byte placeholder. Any other text is
/// held, in this order, to the track's greatest length, to its characters,
/// to its start sentinel and to its end sentinel, and goes on without the
/// two sentinels.
pub open spec fn validated(
    track_number: usize,
    data: Option<Seq<u8>>,
    track_max_length: usize,
    charset: Seq<char>,
    start_sentinel: char,
    end_sentinel: char,
) -> Result<Seq<u8>, ErrorView> {
    match data {
        None => Ok(seq![0u8]),
        Some(text) => if text.len() == 0 {
            Ok(seq![0u8])
        } else if text.len() > track_max_length {
            Err(
                ErrorView::DataForTrackIsTooLong(
                    track_number,
                    text.len() as usize,
                    track_max_length,
                ),
            )
        } else if !all_supported(charset, text) {
            Err(ErrorView::InvalidTrackData(track_number, charset))
        } else if text[0] != start_sentinel as u8 {
            Err(ErrorView::InvalidStartSentinel(track_number, start_sentinel))
        } else if text.last() != end_sentinel as u8 {
            Err(ErrorView::InvalidEndSentinel(track_number, end_sentinel))
        } else {
            Ok(between_sentinels(text))
        },
    }
}

/// Position of the first separator at or after `from`; the length of the
/// text where there is none.
pub open spec fn first_separator(text: Seq<char>, separator: char, from: int) -> int
    decreases text.len() - from,
{
    if from >= text.len() {
        text.len() as int
    } else if text[from] == separator {
        from
    } else {
        first_separator(text, separator, from + 1)
    }
}

/// Piece number `k`, counted from zero, of what is left of `text` from
/// `from` on when it is cut at every separator; nothing where the text has
/// fewer pieces.
pub open spec fn piece(text: Seq<char>, separator: char, from: int, k: nat) -> Option<Seq<char>>
    decreases k,
{
    let end = first_separator(text, separator, from);
    if k == 0 {
        Some(text.subrange(from, end))
    } else if end >= text.len() {
        None
    } else {
        piece(text, separator, end + 1, (k - 1) as nat)
    }
}

/// The UTF-8 bytes of a piece of text.
pub open spec fn piece_bytes(text: Option<Seq<char>>) -> Option<Seq<u8>> {
    match text {
        Some(chars) => Some(encode_utf8(chars)),
        None => None,
    }
}

/// Track `track_number` as the rules of that track leave it.
pub open spec fn validated_track(track_number: usize, data: Option<Seq<u8>>) -> Result<
    Seq<u8>,
    ErrorView,
> {
    if track_number == 1 {
        validated(1, data, 79, TRACK1_SUPPORTED_ASCII@, '%', '?')
    } else if track_number == 2 {
        validated(2, data, 40, TRACK2_3_SUPPORTED_ASCII@, ';', '?')
    } else {
        validated(3, data, 107, TRACK2_3_SUPPORTED_ASCII@, ';', '?')
    }
}

/// The tracks that a line of text stands for: the first three pieces
/// between separators are the three tracks, each held to its rules, and the
/// first track that breaks a rule decides the error.
pub open spec fn tracks_of_text(text: Seq<char>, separator: char) -> Result<
    TracksDataView,
    ErrorView,
> {
    match validated_track(1, piece_bytes(piece(text, separator, 0, 0))) {
        Err(e) => Err(e),
        Ok(track1) => match validated_track(2, piece_bytes(piece(text, separator, 0, 1))) {
            Err(e) => Err(e),
            Ok(track2) => match validated_track(3, piece_bytes(piece(text, separator, 0, 2))) {
                Err(e) => Err(e),
                Ok(track3) => Ok(
                    iso_tracks(
                        BlockView { track1, track2, track3, status: TrackStatus::ParsedFromInput },
                    ),
                ),
            },
        },
    }
}

/// What the rules of a track let through holds neither ESC nor the file
/// separator.
pub proof fn lemma_validated_is_escape_free(track_number: usize, data: Option<Seq<u8>>)
    requires
        validated_track(track_number, data) is Ok,
    ensures
        free_of_escapes(validated_track(track_number, data)->Ok_0),
{
    reveal_strlit(" !\"#$%&'()*+,-./0123456789:;<=>?@ABCDEFGHIJKLMNOPQRSTUVWXYZ[\\]^_");
    reveal_strlit("0123456789:;<=>?");
    let out = validated_track(track_number, data)->Ok_0;
    let charset = if track_number == 1 {
        TRACK1_SUPPORTED_ASCII@
    } else {
        TRACK2_3_SUPPORTED_ASCII@
    };
    assert(forall|j: int|
        0 <= j < charset.len() ==> 0x20 <= (#[trigger] charset[j]) as u32 <= 0x5f);
    if data is Some && data->Some_0.len() > 0 {
        let text = data->Some_0;
        assert(all_supported(charset, text));
        assert forall|i: int| 0 <= i < out.len() implies #[trigger] out[i] != 0x1b && out[i]
            != 0x1c by {
            assert(out[i] == text[i + 1]);
            assert(charset.contains(text[i + 1] as char));
        }
    }
}

/// Text that is written to a card comes back as it was given: the block
/// that is built from the tracks of a line of text, handed back by the
/// device behind any header byte and with any status byte and filling, is
/// read as those tracks.
pub proof fn lemma_text_is_read_back(
    text: Seq<char>,
    separator: char,
    header: u8,
    status: u8,
    rest: Seq<u8>,
)
    requires
        tracks_of_text(text, separator) is Ok,
    ensures
        ({
            let tracks = tracks_of_text(text, separator)->Ok_0;
            scanned(
                response_frame(
                    header,
                    data_block(tracks.track1.data, tracks.track2.data, tracks.track3.data),
                    status,
                    rest,
                ),
            ) == Some(
                carried(tracks.track1.data, tracks.track2.data, tracks.track3.data, status),
            )
        }),
{
    let first = piece_bytes(piece(text, separator, 0, 0));
    let second = piece_bytes(piece(text, separator, 0, 1));
    let third = piece_bytes(piece(text, separator, 0, 2));
    lemma_validated_is_escape_free(1, first);
    lemma_validated_is_escape_free(2, second);
    lemma_validated_is_escape_free(3, third);
    let tracks = tracks_of_text(text, separator)->Ok_0;
    lemma_escape_free_is_plain(tracks.track1.data, tracks.track2.data, tracks.track3.data);
    lemma_scan_finds_built_block(
        tracks.track1.data,
        tracks.track2.data,
        tracks.track3.data,
        header,
        status,
        rest,
    );
}

/// Position of the first separator at or after `from`.
fn find_separator(text: &str, length: usize, separator: char, from: usize) -> (end: usize)
    requires
        length == text@.len(),
        from <= length,
    ensures
        end == first_separator(text@, separator, from as int),
        from <= end <= length,
{
    let mut i: usize = from;
    while i < length
        invariant
            length == text@.len(),
            from <= i <= length,
            first_separator(text@, separator, from as int) == first_separator(
                text@,
                separator,
                i as int,
            ),
        decreases length - i,
    {
        if text.get_char(i) == separator {
            return i;
        }
        i += 1;
    }
    i
}

impl TracksData {
    /// Reads up to three tracks out of one line of text.
    pub fn from_str(text: &str, separator: &char) -> (result: Result<Self, MsrxToolError>)
        ensures
            match tracks_of_text(text@, *separator) {
                Ok(tracks) => result is Ok && result.unwrap()@ == tracks,
                Err(e) => result is Err && result.unwrap_err()@ == e,
            },
    {
        let length: usize = text.unicode_len();
        let end1: usize = find_separator(text, length, *separator, 0);
        let first: &str = text.substring_char(0, end1);
        let mut second: Option<&str> = None;
        let mut third: Option<&str> = None;
        if end1 < length {
            let end2: usize = find_separator(text, length, *separator, end1 + 1);
            second = Some(text.substring_char(end1 + 1, end2));
            if end2 < length {
                let end3: usize = find_separator(text, length, *separator, end2 + 1);
                third = Some(text.substring_char(end2 + 1, end3));
            }
        }
        proof {
            reveal_with_fuel(piece, 3);
            assert(piece(text@, *separator, 0, 0) == Some(first@));
            assert(piece(text@, *separator, 0, 1) == match second {
                Some(s) => Some(s@),
                None => None,
            });
            assert(piece(text@, *separator, 0, 2) == match third {
                Some(s) => Some(s@),
                None => None,
            });
        }

        let track1_data = Self::validate_track(
            1,
            Some(first),
            TRACK1_MAX_LENGTH,
            TRACK1_SUPPORTED_ASCII,
            TRACK_1_START_SENTINEL,
            TRACK_END_SENTINEL,
        )?;
        let track2_data = Self::validate_track(
            2,
            second,
            TRACK2_MAX_LENGTH,
            TRACK2_3_SUPPORTED_ASCII,
            TRACK2_3_START_SENTINEL,
            TRACK_END_SENTINEL,
        )?;
        let track3_data = Self::validate_track(
            3,
            third,
            TRACK3_MAX_LENGTH,
            TRACK2_3_SUPPORTED_ASCII,
            TRACK2_3_START_SENTINEL,
            TRACK_END_SENTINEL,
        )?;

        let tracks_data = TracksData {
            track1: TrackData { data: track1_data, format: DataFormat::Iso },
            track2: TrackData { data: track2_data, format: DataFormat::Iso },
            track3: TrackData { data: track3_data, format: DataFormat::Iso },
            status: TrackStatus::ParsedFromInput,
        };

        Ok(tracks_data)
    }

    /// Converts the data to a data block as it's defined in the manual
    pub fn to_data_block(&self) -> (result: Result<Vec<u8>, MsrxToolError>)
        ensures
            result is Ok,
            result.unwrap()@ == data_block(self.track1.data@, self.track2.data@, self.track3.data@),
    {
        let mut block: Vec<u8> = vec![0x1b, 0x73, 0x1b, 0x01];
        let mut part = self.track1.as_packets();
        block.append(&mut part);
        block.push(0x1b);
        block.push(0x02);
        let mut part = self.track2.as_packets();
        block.append(&mut part);
        block.push(0x1b);
        block.push(0x03);
        let mut part = self.track3.as_packets();
        block.append(&mut part);
        block.push(0x3f);
        block.push(0x1c);
        assert(block@ =~= data_block(self.track1.data@, self.track2.data@, self.track3.data@));
        Ok(block)
    }

    /// Holds the text given for one track to the rules of that track.
    pub fn validate_track(
        track_number: usize,
        data: Option<&str>,
        track_max_length: usize,
        track_supported_ascii: &str,
        start_sentinel: char,
        end_sentinel: char,
    ) -> (result: Result<Vec<u8>, MsrxToolError>)
        ensures
            match validated(
                track_number,
                match data {
                    Some(text) => Some(encode_utf8(text@)),
                    None => None,
                },
                track_max_length,
                track_supported_ascii@,
                start_sentinel,
                end_sentinel,
            ) {
                Ok(bytes) => result is Ok && result.unwrap()@ == bytes,
                Err(e) => result is Err && result.unwrap_err()@ == e,
            },
    {
        let data_vec: Vec<u8> = match data {
            Some(data) => data.as_bytes_vec(),
            None => {
                let placeholder: Vec<u8> = vec![0x00];
                assert(placeholder@ =~= seq![0u8]);
                return Ok(placeholder);
            },
        };
        let length: usize = data_vec.len();
        if length == 0 {
            let placeholder: Vec<u8> = vec![0x00];
            assert(placeholder@ =~= seq![0u8]);
            return Ok(placeholder);
        }
        if length > track_max_length {
            return Err(MsrxToolError::DataForTrackIsTooLong(track_number, length, track_max_length));
        }
        let mut i: usize = 0;
        while i < length
            invariant
                length == data_vec.len(),
                0 < length <= track_max_length,
                data is Some,
                data_vec@ == encode_utf8(data.unwrap()@),
                i <= length,
                forall|k: int|
                    0 <= k < i ==> track_supported_ascii@.contains(#[trigger] data_vec@[k] as char),
            decreases length - i,
        {
            if !has_char(track_supported_ascii, data_vec[i] as char) {
                assert(!track_supported_ascii@.contains(data_vec@[i as int] as char));
                return Err(
                    MsrxToolError::InvalidTrackData(track_number, track_supported_ascii.to_owned()),
                );
            }
            i += 1;
        }
        if data_vec[0] != #[verifier::truncate] (start_sentinel as u8) {
            return Err(MsrxToolError::InvalidStartSentinel(track_number, start_sentinel));
        }
        if data_vec[length - 1] != #[verifier::truncate] (end_sentinel as u8) {
            return Err(MsrxToolError::InvalidEndSentinel(track_number, end_sentinel));
        }
        if length >= 2 {
            Ok(slice_of(&data_vec, 1, length - 1))
        } else {
            Ok(Vec::new())
        }
    }

    /// Reads the tracks out of a reassembled response by its markers.
    pub fn from_frame(frame: &Vec<u8>) -> (result: Result<Self, MsrxToolError>)
        ensures
            match scanned(frame@) {
                Some(block) => result is Ok && result.unwrap()@ == iso_tracks(block),
                None => result is Err && result.unwrap_err()@ == ErrorView::RawDataNotCardData,
            },
    {
        let n: usize = frame.len();
        if n < 5 || frame[1] != 0x1b || frame[2] != 0x73 || !is_marker(frame, 3, 1) {
            return Err(MsrxToolError::RawDataNotCardData);
        }
        let end1: usize = find_boundary(frame, 5);
        if !is_marker(frame, end1, 2) {
            return Err(MsrxToolError::RawDataNotCardData);
        }
        let end2: usize = find_boundary(frame, end1 + 2);
        if !is_marker(frame, end2, 3) {
            return Err(MsrxToolError::RawDataNotCardData);
        }
        let end3: usize = find_boundary(frame, end2 + 2);
        if !is_terminator(frame, end3) || n - end3 <= 3 {
            return Err(MsrxToolError::RawDataNotCardData);
        }
        Ok(
            TracksData {
                track1: TrackData { data: slice_of(frame, 5, end1), format: DataFormat::Iso },
                track2: TrackData { data: slice_of(frame, end1 + 2, end2), format: DataFormat::Iso },
                track3: TrackData { data: slice_of(frame, end2 + 2, end3), format: DataFormat::Iso },
                status: TrackStatus::from(frame[end3 + 3]),
            },
        )
    }
}

/// The bytes of each packet of a run.
pub open spec fn iso_packet_bytes(packets: Seq<IsoData>) -> Seq<Seq<u8>> {
    Seq::new(packets.len(), |i: int| packets[i].raw.data@)
}

impl TracksData {
    /// Puts the packets of one response together and reads the tracks out
    /// of the frame by its markers.
    pub fn try_from(raw_datas: Vec<IsoData>) -> (result: Result<Self, MsrxToolError>)
        ensures
            match scanned(reassembled(iso_packet_bytes(raw_datas@))) {
                Some(block) => result is Ok && result.unwrap()@ == iso_tracks(block),
                None => result is Err && result.unwrap_err()@ == ErrorView::RawDataNotCardData,
            },
    {
        let mut combined_raw_data: Vec<u8> = Vec::new();
        let mut k: usize = 0;
        while k < raw_datas.len()
            invariant
                k <= raw_datas.len(),
                combined_raw_data@ == reassembled(iso_packet_bytes(raw_datas@).take(k as int)),
            decreases raw_datas.len() - k,
        {
            let ghost before = iso_packet_bytes(raw_datas@).take(k as int);
            let ghost after = iso_packet_bytes(raw_datas@).take(k as int + 1);
            assert(after.drop_last() =~= before);
            assert(after.last() == raw_datas@[k as int].raw.data@);
            append_packet(&mut combined_raw_data, &raw_datas[k].raw.data, k == 0);
            assert(combined_raw_data@ =~= reassembled(after));
            k += 1;
        }
        assert(iso_packet_bytes(raw_datas@).take(raw_datas.len() as int) =~= iso_packet_bytes(
            raw_datas@,
        ));
        TracksData::from_frame(&combined_raw_data)
    }
}

} // verus!
