//! Interactive prompts: the interface the dialogs ask through, a scripted
//! implementation of it, the list selection they share, and what the
//! answers do to the fields the dialogs fill.

pub mod dialog_helpers;
pub mod funding;
pub mod inputs;
pub mod io;
pub mod trade_watch;
