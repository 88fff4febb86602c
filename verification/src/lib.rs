//! Finds a channel's newest video, has a conversion service turn it into an
//! audio link and a speech-to-text service turn that link into a transcript.
//!
//! Both services run their work as jobs: a job is submitted once and then
//! polled under a budget until it is done, has failed or has run out of
//! budget. This crate holds every decision of that process and none of its
//! effects. A [`pipeline::Pipeline`], the two jobs that it hands out and the
//! [`poll::PollLoop`] inside them are state machines: each says what to do
//! next, a request to send or a time to wait, and takes what came of it. The
//! caller sends, waits and reads the clock.
//!
//! What the machines do is stated over mathematical views of their states
//! and proved. What the crate takes on trust are two outside libraries: how
//! `serde_json` reads a text as a JSON document, and how `url` writes an
//! address with a query.

pub mod downloader;
pub mod error;
pub mod http;
pub mod job;
pub mod json;
pub mod pipeline;
pub mod poll;
pub mod summarizer;
pub mod transcriber;
