use vstd::prelude::*;

pub mod text;
pub mod sip;
pub mod outbound;
pub mod commands;
pub mod voice;
pub mod ivr;
pub mod subscribe;
pub mod handlers;
pub mod register;
pub mod invite;
pub mod refer;
pub mod in_dialog;
pub mod vci;
pub mod admission;
pub mod command_flow;
pub mod message;

verus! {

} // verus!
