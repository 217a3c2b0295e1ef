//! The engine's error taxonomy.
//!
//! Each variant carries a detail string; `message` renders the flattened
//! textual form that hosts report across the embedding boundary.

use vstd::prelude::*;
use vstd::string::StringExecFns;

verus! {

/// Every failure the engine reports, by kind.
#[derive(Clone, Debug, PartialEq)]
pub enum EngineError {
    /// A configuration invariant is violated.
    InvalidConfig(String),
    /// A body attribute invariant is violated.
    InvalidBody(String),
    /// Creation or initialization would yield two bodies with the same id.
    DuplicateBodyId(String),
    /// An update or delete references an unknown id.
    BodyNotFound(String),
    /// A body's position or velocity became non-finite during or after a step.
    NumericalInstability(String),
    /// A scenario or snapshot schema version is not "1.x".
    SchemaValidationFailed(String),
    /// Reserved for future gated features.
    UnsupportedFeature(String),
}

impl EngineError {
    /// The flattened textual form of the error: a kind prefix followed by the
    /// detail string.
    pub fn message(&self) -> (r: String)
        ensures
            self matches EngineError::InvalidConfig(m) ==> r@ == "invalid config: "@ + m@,
            self matches EngineError::InvalidBody(m) ==> r@ == "invalid body: "@ + m@,
            self matches EngineError::DuplicateBodyId(m) ==> r@ == "duplicate body id: "@ + m@,
            self matches EngineError::BodyNotFound(m) ==> r@ == "body not found: "@ + m@,
            self matches EngineError::NumericalInstability(m) ==> r@ == "numerical instability: "@
                + m@,
            self matches EngineError::SchemaValidationFailed(m) ==> r@
                == "schema validation failed: "@ + m@,
            self matches EngineError::UnsupportedFeature(m) ==> r@ == "unsupported feature: "@
                + m@,
    {
        match self {
            EngineError::InvalidConfig(m) => prefixed("invalid config: ", m),
            EngineError::InvalidBody(m) => prefixed("invalid body: ", m),
            EngineError::DuplicateBodyId(m) => prefixed("duplicate body id: ", m),
            EngineError::BodyNotFound(m) => prefixed("body not found: ", m),
            EngineError::NumericalInstability(m) => prefixed("numerical instability: ", m),
            EngineError::SchemaValidationFailed(m) => prefixed("schema validation failed: ", m),
            EngineError::UnsupportedFeature(m) => prefixed("unsupported feature: ", m),
        }
    }
}

/// Concatenates a static prefix and a detail string.
pub fn prefixed(prefix: &str, detail: &String) -> (r: String)
    ensures
        r@ == prefix@ + detail@,
{
    let mut out = prefix.to_owned();
    out.append(detail.as_str());
    out
}

} // verus!
