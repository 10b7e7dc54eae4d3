use vstd::prelude::*;
use crate::common::loc::LocRange;

verus! {

/// Marker for the typed diagnostic values a grammar threads through its
/// own result type
pub trait ParserError {

}

/// A located diagnostic with a message, the shape consumer grammars use
#[derive(Debug, Clone, PartialEq, Eq)]
pub struct JsonParserError {
    pub loc: LocRange,
    pub msg: String,
}

impl ParserError for JsonParserError {

}

/// Result of a grammar rule that may carry a diagnostic
pub type JsonResults<T> = Result<T, JsonParserError>;

} // verus!
