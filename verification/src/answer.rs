//! The end of a call, as the protocol's answers.

use rmcp::model::{CallToolResult, ContentBlock};
use rmcp::ErrorData;
use vstd::prelude::*;

verus! {

/// The result of a tool call.
#[verifier::external_type_specification]
#[verifier::external_body]
pub struct ExCallToolResult(rmcp::model::CallToolResult);

/// The error of a request.
#[verifier::external_type_specification]
#[verifier::external_body]
pub struct ExErrorData(rmcp::ErrorData);

/// What a result holds for the client: the texts of its content blocks, and
/// whether it is marked as an error.
pub struct ResultView {
    pub texts: Seq<Seq<char>>,
    pub is_error: Option<bool>,
}

/// What an error holds for the client: its code, its message, and whether there
/// is data with it.
pub struct ErrorView {
    pub code: int,
    pub message: Seq<char>,
    pub has_data: bool,
}

/// The code of an internal error.
pub const INTERNAL_ERROR: i32 = -32603;

/// What a `CallToolResult` of text blocks holds.
pub uninterp spec fn result_view(r: CallToolResult) -> ResultView;

/// What an `ErrorData` holds.
pub uninterp spec fn error_view(e: ErrorData) -> ErrorView;

/// The result that tells one text.
pub open spec fn told(text: Seq<char>) -> ResultView {
    ResultView { texts: seq![text], is_error: Some(false) }
}

/// The error that carries one message.
pub open spec fn failed(message: Seq<char>) -> ErrorView {
    ErrorView { code: INTERNAL_ERROR as int, message, has_data: false }
}

/// `CallToolResult::success` with one `ContentBlock::text`: a result whose only
/// block is this text, marked as no error.
#[verifier::external_body]
pub(crate) fn ok(s: String) -> (r: CallToolResult)
    ensures
        result_view(r) == told(s@),
{
    CallToolResult::success(vec![ContentBlock::text(s)])
}

/// `ErrorData::internal_error` without data: an error with the code of an
/// internal error and this message.
#[verifier::external_body]
pub(crate) fn fail(e: String) -> (r: ErrorData)
    ensures
        error_view(r) == failed(e@),
{
    ErrorData::internal_error(e, None)
}

/// Ends a call: with its reply as the only block of a result, or with the message
/// of its refusal as an internal error.
pub fn answer(end: Result<String, String>) -> (r: Result<CallToolResult, ErrorData>)
    ensures
        match end {
            Ok(text) => r is Ok && result_view(r->Ok_0) == told(text@),
            Err(message) => r is Err && error_view(r->Err_0) == failed(message@),
        },
{
    match end {
        Ok(text) => Ok(ok(text)),
        Err(message) => Err(fail(message)),
    }
}

/// A reply reaches the client as one text, whole and not marked as an error, and a
/// refusal as an internal error with its whole message and nothing else.
pub proof fn answers_carry_the_whole_text(text: Seq<char>)
    ensures
        told(text).texts.len() == 1,
        told(text).texts[0] == text,
        told(text).is_error == Some(false),
        failed(text).code == -32603,
        failed(text).message == text,
        !failed(text).has_data,
{
}

} // verus!
