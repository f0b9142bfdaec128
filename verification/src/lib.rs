//! Parsing and conversion of proxy subscription links.
//!
//! The library classifies a trimmed input string as one of five supported
//! encodings (a raw JSON document, or a `ss://`, `vless://`, `vmess://` or
//! `trojan://` link), derives a `(name, server)` display pair that never
//! fails, and converts the link into a normalized runtime configuration
//! document for a proxy engine.

pub mod codecs;
pub mod convert;
pub mod digits;
pub mod display;
pub mod jsonout;
pub mod laws;
pub mod model;
pub mod strutil;

use vstd::prelude::*;
use vstd::string::*;

verus! {

/// The sole way a conversion can fail: the input matches no supported
/// encoding, or matches a scheme but is structurally incomplete.
#[derive(Clone, Copy, PartialEq, Eq, Structural, Debug)]
pub enum ConvertError {
    UnsupportedFormat,
}

impl ConvertError {
    /// Human-readable description of the failure.
    pub fn message(&self) -> (r: String)
        ensures
            r@ == "Unsupported config format"@,
    {
        String::from_str("Unsupported config format")
    }
}

} // verus!
