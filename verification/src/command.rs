//! The commands of the client, one module each, and what they share.

pub mod add_ack;
pub mod add_comment;
pub mod add_downtime;
pub mod author;
pub mod del_ack;
pub mod del_comment;
pub mod del_downtime;
pub mod filter;
pub mod generate_ticket;
pub mod payload;
pub mod removal;
pub mod reply;
pub mod reschedule_check;
pub mod selector;
pub mod status;
pub mod time;
