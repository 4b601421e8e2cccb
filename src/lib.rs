//! An in-memory store of tickets: validated field types, value objects used as
//! input, and a store that assigns identities, applies partial patches and
//! keeps creation and update timestamps.

pub mod clock;
pub mod fields;
pub mod store;
pub mod ticket;

pub use fields::{TicketDescription, TicketTitle, ValidationError};
pub use clock::Timestamp;
pub use store::{DeletedTicket, Ticket, TicketId, TicketStore};
pub use ticket::{Status, TicketDraft, TicketPatch};
