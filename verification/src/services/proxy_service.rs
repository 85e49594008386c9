//! The orchestrator's decisions, separated from the transport that carries
//! them out.  Exactly one backend call is made per inbound request — no
//! retry, no backoff — and what the backend sent back is judged here: a
//! non-success status or an unusable body becomes an `ApiError` and the
//! response translator is never reached; only a decodable success body
//! with a first choice is translated.

use crate::adapters::openai_response_adapter::{adapts_response, OpenAIToClaudeMessagesAdapter};
use crate::models::claude_messages::{ClaudeMessagesRequest, ClaudeMessagesResponse};
use crate::models::error::AdaptorError;
use crate::models::openai::{OpenAIRequest, OpenAIResponse};
use crate::models::qwen3::QwenResponse;
use vstd::prelude::*;

verus! {

/// Whether a backend status code counts as success.
pub open spec fn is_success_status(status: u16) -> bool {
    200 <= status < 300
}

/// Whether an inbound request asks for a streamed response.
pub fn wants_stream(request: &ClaudeMessagesRequest) -> (r: bool)
    ensures
        r == (request.stream == Option::Some(true)),
{
    match request.stream {
        Option::Some(b) => b,
        Option::None => false,
    }
}

/// Forces the streaming flag on an outbound request, leaving every other
/// field as it was.
pub fn force_stream(request: &mut OpenAIRequest)
    ensures
        final(request).stream == Option::Some(true),
        final(request).model == old(request).model,
        final(request).messages == old(request).messages,
        final(request).max_tokens == old(request).max_tokens,
        final(request).temperature == old(request).temperature,
        final(request).top_p == old(request).top_p,
        final(request).tools == old(request).tools,
        final(request).tool_choice == old(request).tool_choice,
        final(request).response_format == old(request).response_format,
        final(request).stream_options == old(request).stream_options,
{
    request.stream = Option::Some(true);
}

/// Judges one backend reply to a non-streamed request.  `status` is the
/// HTTP status, `body` the body text, and `parsed` the body decoded as a
/// backend response, `None` when it did not decode.
///
/// A non-success status fails with the backend's own text attached; a
/// success whose body did not decode, or decoded to no choices, fails
/// likewise; any other reply is translated.  The translator runs only in
/// the success case.
pub fn process_backend_reply(status: u16, body: String, parsed: Option<OpenAIResponse>) -> (r:
    Result<ClaudeMessagesResponse, AdaptorError>)
    ensures
        !is_success_status(status) ==> r == Result::<ClaudeMessagesResponse, AdaptorError>::Err(
            AdaptorError::ApiError(body),
        ),
        is_success_status(status) && parsed is None ==> (r matches Err(AdaptorError::ApiError(m))
            && m@ == "backend returned an undecodable body"@),
        is_success_status(status) && parsed is Some && (parsed->Some_0).choices@.len() == 0 ==> (
        r matches Err(AdaptorError::ApiError(m)) && m@ == "backend returned no choices"@),
        is_success_status(status) && parsed is Some && (parsed->Some_0).choices@.len() >= 1 ==> (
        r matches Ok(out) && adapts_response(parsed->Some_0, out)),
{
    if status < 200 || status >= 300 {
        return Err(AdaptorError::ApiError(body));
    }
    match parsed {
        Option::None => Err(
            AdaptorError::ApiError(String::from_str("backend returned an undecodable body")),
        ),
        Option::Some(resp) => {
            if resp.choices.len() == 0 {
                Err(AdaptorError::ApiError(String::from_str("backend returned no choices")))
            } else {
                let adapter = OpenAIToClaudeMessagesAdapter;
                Ok(adapter.adapt(resp))
            }
        },
    }
}

/// On a non-success backend status the judgment is the error alone: the
/// result is `Err(ApiError(body))` whatever the body decoded to, so two
/// calls that differ only in the decoded body agree.  The response
/// translator therefore plays no part in the outcome of a failed upstream
/// call.
pub proof fn lemma_failure_skips_translation(
    status: u16,
    body: String,
    parsed1: Option<OpenAIResponse>,
    parsed2: Option<OpenAIResponse>,
    r1: Result<ClaudeMessagesResponse, AdaptorError>,
    r2: Result<ClaudeMessagesResponse, AdaptorError>,
)
    requires
        !is_success_status(status),
        call_ensures(process_backend_reply, (status, body, parsed1), r1),
        call_ensures(process_backend_reply, (status, body, parsed2), r2),
    ensures
        r1 == Result::<ClaudeMessagesResponse, AdaptorError>::Err(AdaptorError::ApiError(body)),
        r1 == r2,
{
}

/// Judges one native-Qwen backend reply.  A non-success status fails with
/// the backend's error text attached; a success whose body did not decode
/// fails as a transport-level decode error; a decoded success passes
/// through untouched.
pub fn process_qwen_reply(status: u16, body: String, parsed: Option<QwenResponse>) -> (r: Result<
    QwenResponse,
    AdaptorError,
>)
    ensures
        !is_success_status(status) ==> (r matches Err(AdaptorError::ApiError(m)) && m@
            == "Qwen API request failed: "@ + body@),
        is_success_status(status) && parsed is None ==> (r matches Err(
            AdaptorError::HttpRequest(m),
        ) && m@ == "failed to decode backend response"@),
        is_success_status(status) && parsed is Some ==> r == Result::<
            QwenResponse,
            AdaptorError,
        >::Ok(parsed->Some_0),
{
    if status < 200 || status >= 300 {
        let message = String::from_str("Qwen API request failed: ").concat(body.as_str());
        return Err(AdaptorError::ApiError(message));
    }
    match parsed {
        Option::None => Err(
            AdaptorError::HttpRequest(String::from_str("failed to decode backend response")),
        ),
        Option::Some(resp) => Ok(resp),
    }
}

} // verus!
