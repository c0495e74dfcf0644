//! Interactive choice / disambiguation protocol for a chat bot.
//!
//! Given an ambiguous search query that produced several candidate results,
//! the bot presents a numbered list to the requesting user, waits for a
//! single textual reply (a number or a cancellation keyword) within a
//! bounded time window, correlates that reply to the original requester and
//! channel, and then either leaves the presented message in place for a
//! final edit or cleans it up.
//!
//! The protocol itself - rendering the numbered list, classifying replies,
//! the session state machine, and cleanup - is verified here.  Delivery of
//! chat messages is left to an unverified gateway; a verified in-memory
//! model of that gateway is provided for exercising whole sessions.

pub mod anilist;
pub mod choice;
pub mod dashboard;
pub mod digits;
pub mod gateway;
pub mod metrics;
pub mod options;
pub mod presenter;
pub mod protocol;
pub mod reply;
pub mod session;
pub mod storage;
