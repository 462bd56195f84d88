//! A command-driven client for a remote generative-AI HTTP service.
//!
//! The heart of the crate is the request dispatcher in [`openai`]: it takes
//! one intent out of a closed set, resolves it to a verb and a path, encodes
//! its body, classifies the status of the reply and decodes the reply into
//! the response that belongs to the intent. The dispatcher performs no input
//! or output: it is driven by events and answers with the action to take
//! next, and the caller performs the file reads and the network exchange.
//!
//! Around it stand the options of the command line and the request that
//! they select ([`cli`]), the report of a shell command ([`cmdln`]), the
//! choice of the log level ([`logging`]) and the completion of a single
//! prompt without a dispatcher ([`chatgbt`]).

pub mod chatgbt;
pub mod cli;
pub mod cmdln;
pub mod logging;
pub mod openai;
