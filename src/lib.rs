//! Decoder for Bluetooth Attribute Protocol responses: characteristic
//! discovery records and read-by-type notifications.
pub mod att;
pub mod cursor;
pub mod peripheral;

pub use att::{
    characteristic, characteristics, notify_response, ErrorKind, IResult, NotifyResponse,
    ATT_OP_READ_BY_TYPE_RESP, OPEN_END_HANDLE,
};
pub use cursor::Cursor;
pub use peripheral::{CharPropFlags, Characteristic, CharacteristicUUID};
