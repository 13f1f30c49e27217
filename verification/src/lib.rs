//! Lexical analysis and source locations for a small assembly-like
//! language: text becomes a sequence of tokens, each with the bytes it
//! covers, and failures become diagnostics anchored to those bytes.

pub mod parse;
