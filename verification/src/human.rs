//! The human channel: which requests are pending, how they are shown, how an
//! answer is read, and the notification that goes out for them.

pub mod answer_laws;
pub mod cli;
pub mod notice_laws;
pub mod webhook;
