//! The error type for loading and reloading the configured mapping.

use vstd::prelude::*;

verus! {

/// Why a mapping or service configuration text was rejected. I/O and
/// transport failures stay with the callers that do the I/O.
#[derive(Debug, Clone, PartialEq, Eq)]
pub enum Error {
    /// The mapping text is not a well-formed mapping of strings to strings.
    YamlParse,
    /// The service settings text is not well formed, or holds a rate limit
    /// outside the representable range.
    TomlParse,
    /// The mapping holds a blank target URL; carries the offending code.
    Config(String),
}

} // verus!
