//! Compile-time code-generation engine for embedding a scripting-language
//! program in host-language source: the invocation's option block and payload
//! are parsed, the payload is staged to disk with its line numbers aligned to
//! the host source, an interpreter runs it, and its standard output is spliced
//! back in place of the invocation. This crate holds the expansion engine's
//! logic — tokens, option parsing, payload extraction, staging contents and
//! paths, interpreter command naming, output classification, and the re-splice
//! adapter — all verified; the surrounding process and file I/O lives outside.

pub mod diag;
pub mod expand;
pub mod options;
pub mod options_laws;
pub mod render;
pub mod run;
pub mod set_once;
pub mod splice;
pub mod staging;
pub mod tokens;
