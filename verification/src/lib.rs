//! Client core for a transactional email provider: message model, the
//! provider's JSON wire format, and classification of provider responses.
//!
//! The HTTP exchange itself lives outside this library; callers hand the
//! request bodies built here to their transport and hand the outcome back
//! to `interpret_response`.

pub mod message;
pub mod response;
pub mod sender;
pub mod wire;

pub use message::{Attachment, Email, Recipient, TemplateVar};
pub use response::{HttpOutcome, JsonValue};
pub use sender::Sender;
