//! The failures of one foreign call, and the text each one is reported with.

use vstd::prelude::*;

verus! {

/// Why an invocation of the foreign function produced no payload.
#[derive(Debug, PartialEq, Eq)]
pub enum BridgeError {
    /// The dynamic library could not be loaded; holds the platform's message.
    Load(String),
    /// The library has no export of the expected name; holds the platform's message.
    Symbol(String),
    /// The argument text holds a zero byte and has no null-terminated form.
    Encoding,
    /// The foreign function returned a null pointer.
    NullResult,
    /// The isolated context terminated abnormally; holds the diagnostic.
    Panic(String),
    /// The isolated context ended without handing over an outcome; holds the diagnostic.
    Receive(String),
}

/// The mathematical value of a [`BridgeError`]: the same variants over character sequences.
pub enum BridgeErrorView {
    Load(Seq<char>),
    Symbol(Seq<char>),
    Encoding,
    NullResult,
    Panic(Seq<char>),
    Receive(Seq<char>),
}

impl View for BridgeError {
    type V = BridgeErrorView;

    open spec fn view(&self) -> BridgeErrorView {
        match self {
            BridgeError::Load(detail) => BridgeErrorView::Load(detail@),
            BridgeError::Symbol(detail) => BridgeErrorView::Symbol(detail@),
            BridgeError::Encoding => BridgeErrorView::Encoding,
            BridgeError::NullResult => BridgeErrorView::NullResult,
            BridgeError::Panic(detail) => BridgeErrorView::Panic(detail@),
            BridgeError::Receive(detail) => BridgeErrorView::Receive(detail@),
        }
    }
}

impl BridgeErrorView {
    /// The human-readable message of the failure: a fixed text per kind,
    /// followed by the detail where the kind carries one.
    pub open spec fn message(self) -> Seq<char> {
        match self {
            BridgeErrorView::Load(detail) => "Failed to load DLL: "@ + detail,
            BridgeErrorView::Symbol(detail) => "Failed to load ReadExcelFile function: "@ + detail,
            BridgeErrorView::Encoding => "CString::new failed"@,
            BridgeErrorView::NullResult => "ReadExcelFile returned null pointer"@,
            BridgeErrorView::Panic(detail) => "Thread panicked: "@ + detail,
            BridgeErrorView::Receive(detail) => "Failed to receive result: "@ + detail,
        }
    }
}

impl BridgeError {
    /// The message this failure is reported with.
    pub fn message(&self) -> (text: String)
        ensures
            text@ == self@.message(),
    {
        match self {
            BridgeError::Load(detail) => prefixed("Failed to load DLL: ", detail.as_str()),
            BridgeError::Symbol(detail) => prefixed(
                "Failed to load ReadExcelFile function: ",
                detail.as_str(),
            ),
            BridgeError::Encoding => String::from_str("CString::new failed"),
            BridgeError::NullResult => String::from_str("ReadExcelFile returned null pointer"),
            BridgeError::Panic(detail) => prefixed("Thread panicked: ", detail.as_str()),
            BridgeError::Receive(detail) => prefixed("Failed to receive result: ", detail.as_str()),
        }
    }
}

/// `prefix` followed by `detail`, as one owned string.
fn prefixed(prefix: &str, detail: &str) -> (text: String)
    ensures
        text@ == prefix@ + detail@,
{
    let mut text = String::from_str(prefix);
    text.append(detail);
    text
}

} // verus!
