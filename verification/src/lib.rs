//! Core logic of a small chat bot: translating framework errors to user
//! replies or log lines, rendering the latency reply, and planning the
//! category-cloning command as a checked pipeline of actions.
#![allow(unused_imports)]

pub mod category;
pub mod clone_flow;
pub mod ping;
pub mod ready;
pub mod text;
pub mod translate;
