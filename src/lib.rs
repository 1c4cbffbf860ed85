//! Decoding and bit-level rendering of masked WebSocket data frames.
//!
//! A frame is decoded from a byte buffer into its header fields, payload length,
//! masking key and payload, which is unmasked once. The renderer lays a decoded
//! frame out as a table of coloured cells: a header block, fixed header rows
//! whose layout depends on the length encoding, and one row group per four
//! remaining payload bytes.

pub mod bits;
pub mod byte_list;
pub mod byte_source;
pub mod color;
pub mod diagram;
pub mod frame;
pub mod header;
pub mod layout;
pub mod opcode;
pub mod paint;
pub mod render;
pub mod second_row;
pub mod style;
pub mod text;
pub mod widths;

pub use bits::{bit_str, byte_str, get_bit, get_bits_from_byte};
pub use byte_list::ByteList;
pub use byte_source::ByteSource;
pub use color::Color;
pub use frame::{unmask, DecodeError, FrameField, PayloadLength, WebSocketFrame};
pub use layout::RowSpec;
pub use opcode::WebSocketOpCode;
pub use render::{plain_text, Cell};
pub use style::FormatStyle;
