//! Framed messages for byte streams.
//!
//! A payload travels as one frame: the payload, the CRC-32 of the payload as
//! four little-endian bytes, both byte-stuffed so that no zero byte is left,
//! and then a single zero byte that ends the frame.
//!
//! [`encode`] makes a frame and [`decode`] opens one. Both work in fixed
//! buffers and keep nothing between calls.

pub mod checksum;
pub mod error;
pub mod frame;
pub mod laws;
pub mod stuffing;

pub use error::Error;
pub use frame::{
    decode, decode_with_capacity, encode, encode_with_capacity, frame_len_bound, settle, CAPACITY,
    TRAILER_LEN,
};
