//! Rolling up approved pull requests.
//!
//! A roll-up merges the pull requests that the build bot has approved, one
//! after the other, into the branch that is checked out. This crate holds
//! the decisions of such a run and none of its transfers: the caller sends
//! the requests, shows the questions and runs git, and hands in what came
//! of it.
//!
//! - `approval` reads the approved numbers out of the bot's page.
//! - `fetch` gathers the open pull requests page by page, and `links` finds
//!   the way from one page to the next.
//! - `select` keeps the pull requests that are approved and not too old.
//! - `run` asks about each of them and has it merged; `merge` says with which
//!   commands, `prompt` what an answer means.
//! - `json` and `decode` read the records out of the responses, `http`
//!   holds a response, `text` works on characters, and `error` says what can
//!   go wrong.

pub mod approval;
pub mod decode;
pub mod error;
pub mod fetch;
pub mod http;
pub mod json;
pub mod links;
pub mod merge;
pub mod model;
pub mod prompt;
pub mod run;
pub mod select;
pub mod text;
