//! A verified core for a picture-upload service: it dispatches an
//! HTTP-shaped request, parses a JSON payload naming a bar and a drink,
//! derives a deterministic object-storage key, and asks the storage SDK
//! for a time-limited pre-signed upload URL.
//!
//! The payload names its fields `bar_name` and `drink_name`; the body is
//! parsed strictly, a parse failure answering with status 400; and a
//! success body is the signed URL, JSON-encoded as a bare string.

pub mod handler;
pub mod json;
pub mod payload;
pub mod region;
pub mod response;
pub mod sign;
