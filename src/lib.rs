//! Control-and-update backend for a serial motor drive: the binary frame
//! codec of the motor link, field decoding and the command catalog, the
//! YMODEM firmware transfer and the unattended startup test, each stated
//! as pure, verified logic that a thin I/O layer drives.

pub mod catalog;
pub mod fields;
pub mod frame;
pub mod header;
pub mod keyvalue;
pub mod params;
pub mod receive;
pub mod relay;
pub mod startup;
pub mod upgrade;
pub mod ymodem;

pub use fields::{vec_to_int, vec_to_long, vec_to_short};
pub use frame::{decode_response, encode_request, encode_response};
pub use params::{MotorEncoderParams, MotorStatus};
pub use ymodem::Ymodem;
