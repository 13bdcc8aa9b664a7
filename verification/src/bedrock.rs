//! The user-facing explanation of an expired Amazon Bedrock signature.

use vstd::prelude::*;

use crate::text::{chars_of, contains, contains_seq};

verus! {

/// The message shown when Bedrock rejects an expired AWS signature.
pub const BEDROCK_EXPIRED_SIGNATURE_MESSAGE: &'static str = "Amazon Bedrock rejected the request because its AWS signature has expired. Refresh your AWS credentials and retry. If `AWS_BEARER_TOKEN_BEDROCK` is set, update or unset it, then restart SolaiAgent";

/// The HTTP status of an unauthorized request.
pub const UNAUTHORIZED: u16 = 401;

/// The user message for a failed Bedrock response: the expired-signature
/// explanation for a 401 whose body reports an expired signature.
pub fn bedrock_user_message(status: u16, body: &str) -> (r: Option<&'static str>)
    ensures
        r is Some <==> (status == UNAUTHORIZED && contains_seq(body@, "Signature expired:"@)),
        r matches Some(m) ==> m@ == BEDROCK_EXPIRED_SIGNATURE_MESSAGE@,
{
    if status == UNAUTHORIZED && contains(&chars_of(body), &chars_of("Signature expired:")) {
        Some(BEDROCK_EXPIRED_SIGNATURE_MESSAGE)
    } else {
        None
    }
}

} // verus!
