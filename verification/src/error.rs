//! Errors.

use vstd::prelude::*;

verus! {

/// Why a chart could not be drawn.
#[derive(Debug, PartialEq, Eq)]
pub enum EchartsError {
    /// The host environment lacks something that the renderer needs; the text
    /// says what.
    WasmError(String),
}

impl View for EchartsError {
    type V = Seq<char>;

    /// The error's message.
    open spec fn view(&self) -> Seq<char> {
        match self {
            EchartsError::WasmError(message) => message@,
        }
    }
}

impl EchartsError {
    /// The error's message.
    pub fn message(&self) -> (text: String)
        ensures
            text@ == self@,
    {
        match self {
            EchartsError::WasmError(message) => message.clone(),
        }
    }
}

} // verus!
