//! The wire protocol between client and daemon: messages and framing.

pub mod frame;
pub mod protocol;

pub use frame::{decode_frame, encode_frame, Decoded, FrameError};
pub use protocol::{Method, ReplyBody, Request, Response, ResponseResult};
