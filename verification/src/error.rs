//! The error that a tool returns when a request makes no sense to it: yart's
//! `ToolError`, which carries a message for whoever made the request.

use vstd::prelude::*;
use yart::ToolError;

verus! {

/// `yart::ToolError`: a tuple struct whose one field, which is public, is
/// the message.
#[verifier::external_type_specification]
pub struct ExToolError(yart::ToolError);

/// `ToolError::new` of yart, which turns its argument into a `String` and
/// wraps it: the error's message is the text given.
#[verifier::external_body]
pub(crate) fn tool_error(message: &str) -> (error: ToolError)
    ensures
        error.0@ == message@,
{
    ToolError::new(message)
}

} // verus!
