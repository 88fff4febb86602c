//! Turning a transcript into a blog post.

use vstd::prelude::*;

verus! {

/// A blog post.
pub struct Post {
    pub title: String,
    pub content: String,
}

/// A tool to summarize a text into a blog post.
pub trait Summarizer {
    fn summarize(&self, text: &str) -> Post;
}

/// The credentials of a chat service that can summarize.
pub struct ChatGPT {
    pub key: String,
}

} // verus!
