//! Verified companion library for a set of small introductory Rust programs:
//! ownership helpers, simple structs and enums, generic functions, trait-based
//! summaries, two console games and a scripted chat session. The executable
//! pieces live here with full contracts; console input and output, threads and
//! async plumbing stay in the surrounding application code.

pub mod arrays;
pub mod articles;
pub mod chat;
pub mod enums;
pub mod games;
pub mod generics;
pub mod guess;
pub mod ownership;
pub mod structs;
pub mod tweets;
