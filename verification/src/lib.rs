//! Protocol core for a USB magnetic-stripe card reader/writer: the ISO 7811
//! character codec, track validation, the framed track-data block, packet
//! chunking and reassembly, and the session state machine.

pub mod msrx_tool_error;
pub mod track_status;
pub mod char_bits_conversion;
pub mod packet;
pub mod original_device_data;
pub mod text;
pub mod data_format;
pub mod raw_data;
pub mod raw_device_data;
pub mod device_data;
pub mod iso_data;
pub mod track_data;
pub mod track_block;
pub mod transport;
pub mod tracks_data;
pub mod raw_tracks_data;
pub mod command;
pub mod config;
pub mod msrx;
pub mod reverse_string;
pub mod to_hex;
pub mod output;
pub mod input;
pub mod processing_format;
