//! Client-side request construction and response decoding for the HTTP
//! control interface of a device emulator.

pub mod button;
pub mod decode;
pub mod error;
pub mod event;
pub mod json;
pub mod reader;

pub mod request;

pub use button::Button;
pub use decode::{decode_event, decode_events};
pub use error::{ApiError, DecodeError};
pub use event::{Event, EventsResponse};
pub use json::{Json, JsonNumber, JsonView};
pub use reader::{parse_events, parse_json};

pub use request::{Method, QueryParam, Request, TransportSpeculosHttp};
