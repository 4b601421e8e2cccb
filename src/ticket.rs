use crate::fields::{TicketDescription, TicketTitle};
use vstd::prelude::*;

verus! {

/// The workflow state of a ticket.
#[derive(PartialEq, Eq, Structural, Clone, Copy, Debug)]
pub enum Status {
    ToDo,
    InProgress,
    Blocked,
    Done,
}

/// What is needed to create a ticket: a validated title and description.
#[derive(Debug, Clone, PartialEq)]
pub struct TicketDraft {
    pub title: TicketTitle,
    pub description: TicketDescription,
}

/// A partial change to a stored ticket: each field that is `None` is left as it is.
#[derive(Debug, Clone, PartialEq)]
pub struct TicketPatch {
    pub title: Option<TicketTitle>,
    pub description: Option<TicketDescription>,
    pub status: Option<Status>,
}

} // verus!
