//! The submission lifecycle of a community-curation bot.
//!
//! End users submit candidate images into a review queue, curators approve,
//! reject or annotate each submission, and approved submissions are promoted
//! into a production catalog. Every handler here is a function from the
//! current state and one inbound event to the next state and the reply that
//! the caller has to deliver.

pub mod catalog;
pub mod commands;
pub mod config;
pub mod event;
pub mod handler;
pub mod laws;
pub mod promotion;
pub mod reply;
pub mod store;
pub mod submission;
pub mod text;
