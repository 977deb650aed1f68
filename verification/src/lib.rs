//! A facade over the `iptables` family of tools that never runs anything
//! itself. It says which arguments the tool is to be run with, under which
//! lock, and what the outcome of a run means; the caller runs the tool and
//! reports back.
//!
//! * [`iptables`] makes the handle: it refuses hosts other than Linux and
//!   derives from the tool's version what the tool can do.
//! * [`operations`] turns a request into a [`command::Question`], a
//!   [`command::Listing`] or a [`command::Action`].
//! * [`invoker`] leads one run of the tool through the lock protocol.
//! * [`outcome`] and [`listing`] read what a run left behind.
//! * [`tokenizer`] splits a rule into arguments, [`version`] reads a version.
//! * [`pattern`] is the boundary to the `regex` crate.
//! * [`laws`] states what holds of all of this together.

pub mod command;
pub mod failure;
pub mod invoker;
pub mod iptables;
pub mod laws;
pub mod listing;
pub mod operations;
pub mod outcome;
pub mod pattern;
pub mod text;
pub mod tokenizer;
pub mod version;
