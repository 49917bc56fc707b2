//! Payload validation and token estimation: every broken rule of a request,
//! and what the request costs.

use crate::a2a::{
    capability_violations, error_text, field_violations, is_known_capability,
    lemma_unknown_capabilities_step, part_views, violations, A2ARequest, A2ARequestView,
    MessageObjectView, MessagePart, MessagePartView, ValidationError, ValidationErrorView,
};
use crate::json::{json_text_len, object_chars, text_cost};
use crate::text::texts;
use vstd::prelude::*;
use vstd::string::StrSliceExecFns;

verus! {

/// The outcome of validating one payload.
#[derive(Debug, Clone)]
pub struct ValidationResult {
    pub valid: bool,
    pub estimated_tokens: u64,
    pub errors: Vec<String>,
}

/// What a [`ValidationResult`] holds.
pub struct ValidationResultView {
    pub valid: bool,
    pub estimated_tokens: nat,
    pub errors: Seq<Seq<char>>,
}

impl View for ValidationResult {
    type V = ValidationResultView;

    open spec fn view(&self) -> ValidationResultView {
        ValidationResultView {
            valid: self.valid,
            estimated_tokens: self.estimated_tokens as nat,
            errors: texts(self.errors@),
        }
    }
}

/// The number of characters charged for one message part. A file's location
/// is free; structured content is charged by the length of its JSON text.
pub open spec fn part_chars(part: MessagePartView) -> nat {
    match part {
        MessagePartView::Text { text } => text.len(),
        MessagePartView::File { name, mime_type, uri } => name.len() + mime_type.len(),
        MessagePartView::Data { data } => text_cost(json_text_len(data)),
        MessagePartView::FunctionCall { id, name, args } => name.len() + text_cost(
            json_text_len(args),
        ),
        MessagePartView::FunctionResponse { call_id, response } => call_id.len() + text_cost(
            json_text_len(response),
        ),
    }
}

/// The number of characters charged for a run of message parts.
pub open spec fn parts_chars(parts: Seq<MessagePartView>) -> nat
    decreases parts.len(),
{
    if parts.len() == 0 {
        0
    } else {
        parts_chars(parts.drop_last()) + part_chars(parts.last())
    }
}

/// The number of characters charged for a request: its task identifier and
/// all its message parts.
pub open spec fn request_chars(request: A2ARequestView) -> nat {
    request.task_id.len() + parts_chars(request.message_object.parts)
}

/// A count as a 64-bit counter holds it: itself, or the largest value the
/// counter has room for.
pub open spec fn saturated(count: nat) -> nat {
    if count <= u64::MAX {
        count
    } else {
        u64::MAX as nat
    }
}

/// Tokens for a number of characters: four characters to the token, rounded
/// up.
pub open spec fn tokens_for(chars: nat) -> nat {
    (saturated(chars) + 3) / 4
}

/// The estimated cost of a request in tokens.
pub open spec fn estimated_tokens(request: A2ARequestView) -> nat {
    tokens_for(request_chars(request))
}

/// The wording of each rejection of a list, in order.
pub open spec fn error_texts(errors: Seq<ValidationErrorView>) -> Seq<Seq<char>> {
    Seq::new(errors.len(), |i: int| error_text(errors[i]))
}

/// What validating a request yields: whether no rule is broken, the
/// estimated cost, and the wording of every broken rule.
pub open spec fn validation_outcome(request: A2ARequestView) -> ValidationResultView {
    ValidationResultView {
        valid: violations(request).len() == 0,
        estimated_tokens: estimated_tokens(request),
        errors: error_texts(violations(request)),
    }
}

/// A decoded body as validation reads it: the request, or the decoder's
/// account of why there is none.
pub open spec fn decoded_view(decoded: Result<A2ARequest, String>) -> Result<
    A2ARequestView,
    Seq<char>,
> {
    match decoded {
        Ok(request) => Ok(request@),
        Err(reason) => Err(reason@),
    }
}

/// What validating a decoded body yields: the outcome for the request, or,
/// for a body that could not be decoded, the wording of that failure.
pub open spec fn payload_outcome(decoded: Result<A2ARequestView, Seq<char>>) -> Result<
    ValidationResultView,
    Seq<char>,
> {
    match decoded {
        Ok(request) => Ok(validation_outcome(request)),
        Err(reason) => Err(error_text(ValidationErrorView::InvalidJson(reason))),
    }
}

/// The result of a validation as its contents: the outcome, or the wording
/// of the failure.
pub open spec fn result_view(result: Result<ValidationResult, String>) -> Result<
    ValidationResultView,
    Seq<char>,
> {
    match result {
        Ok(checked) => Ok(checked@),
        Err(failure) => Err(failure@),
    }
}

/// Validates a decoded body and estimates its cost.
///
/// A body that could not be decoded fails at once, with the decoder's
/// account as the reason. A decoded request is held against every
/// structural rule, and all violations are collected rather than the first;
/// it is valid exactly when there are none.
pub fn validate_a2a_payload(decoded: &Result<A2ARequest, String>) -> (result: Result<
    ValidationResult,
    String,
>)
    ensures
        result_view(result) == payload_outcome(decoded_view(*decoded)),
        result matches Ok(checked) ==> checked.valid == (checked.errors@.len() == 0),
{
    let request = match decoded {
        Ok(request) => request,
        Err(reason) => {
            return Err(ValidationError::InvalidJson(reason.clone()).to_string());
        },
    };
    let mut errors: Vec<String> = Vec::new();
    if request.task_id.as_str().is_empty() {
        errors.push(ValidationError::MissingTaskId.to_string());
    }
    if request.message_object.parts.len() == 0 {
        errors.push(ValidationError::EmptyMessageParts.to_string());
    }
    let ghost caps = texts(request.capabilities@);
    let ghost fields = field_violations(request@);
    proof {
        // No capability looked at yet, none found unknown.
        reveal(Seq::filter);
    }
    let mut i: usize = 0;
    while i < request.capabilities.len()
        invariant
            i <= request.capabilities@.len(),
            caps == texts(request.capabilities@),
            texts(errors@) == error_texts(fields + capability_violations(caps.take(i as int))),
        decreases request.capabilities@.len() - i,
    {
        let ghost before = texts(errors@);
        proof {
            lemma_unknown_capabilities_step(caps, i as int);
        }
        if !is_valid_capability(request.capabilities[i].as_str()) {
            let error = ValidationError::InvalidCapability(request.capabilities[i].clone());
            errors.push(error.to_string());
            proof {
                assert(texts(errors@) =~= before.push(error_text(error@)));
                assert(texts(errors@) =~= error_texts(
                    fields + capability_violations(caps.take(i + 1)),
                ));
            }
        }
        i += 1;
    }
    proof {
        assert(caps.take(i as int) =~= caps);
    }
    let estimated_tokens = estimate_tokens(request);
    Ok(ValidationResult { valid: errors.len() == 0, estimated_tokens, errors })
}

/// Whether a capability token belongs to the vocabulary.
pub fn is_valid_capability(cap: &str) -> (known: bool)
    ensures
        known == is_known_capability(cap@),
{
    A2ARequest::is_valid_capability(cap)
}

/// What is charged for a run of parts once one more part has been counted.
pub proof fn lemma_parts_chars_step(parts: Seq<MessagePartView>, i: int)
    requires
        0 <= i < parts.len(),
    ensures
        parts_chars(parts.take(i + 1)) == parts_chars(parts.take(i)) + part_chars(parts[i]),
{
    assert(parts.take(i + 1).drop_last() =~= parts.take(i));
}

/// Estimates the cost of a request in tokens: four characters of the task
/// identifier and of the message parts to the token, rounded up.
pub fn estimate_tokens(request: &A2ARequest) -> (tokens: u64)
    ensures
        tokens == estimated_tokens(request@),
{
    let mut chars: u64 = request.task_id.as_str().unicode_len() as u64;
    let ghost parts = part_views(request.message_object.parts@);
    proof {
    }
    let mut i: usize = 0;
    while i < request.message_object.parts.len()
        invariant
            i <= request.message_object.parts@.len(),
            parts == part_views(request.message_object.parts@),
            chars == saturated(request.task_id@.len() + parts_chars(parts.take(i as int))),
        decreases request.message_object.parts@.len() - i,
    {
        proof {
            lemma_parts_chars_step(parts, i as int);
        }
        chars = chars.saturating_add(count_part_characters(&request.message_object.parts[i]));
        i += 1;
    }
    proof {
        assert(parts.take(i as int) =~= parts);
    }
    if chars % 4 == 0 {
        chars / 4
    } else {
        chars / 4 + 1
    }
}

/// Counts the characters charged for one message part.
pub fn count_part_characters(part: &MessagePart) -> (chars: u64)
    ensures
        chars == saturated(part_chars(part@)),
{
    match part {
        MessagePart::Text { text } => text.as_str().unicode_len() as u64,
        MessagePart::File { name, mime_type, .. } => {
            (name.as_str().unicode_len() as u64).saturating_add(
                mime_type.as_str().unicode_len() as u64,
            )
        },
        MessagePart::Data { data } => object_chars(data) as u64,
        MessagePart::FunctionCall { name, args, .. } => {
            (name.as_str().unicode_len() as u64).saturating_add(object_chars(args) as u64)
        },
        MessagePart::FunctionResponse { call_id, response } => {
            (call_id.as_str().unicode_len() as u64).saturating_add(object_chars(response) as u64)
        },
    }
}

/// A request with one more text part at the end of its message.
pub open spec fn with_text_appended(request: A2ARequestView, text: Seq<char>) -> A2ARequestView {
    A2ARequestView {
        message_object: MessageObjectView {
            parts: request.message_object.parts.push(MessagePartView::Text { text }),
            ..request.message_object
        },
        ..request
    }
}

/// More characters never cost fewer tokens.
pub proof fn lemma_tokens_monotone(fewer: nat, more: nat)
    requires
        fewer <= more,
    ensures
        tokens_for(fewer) <= tokens_for(more),
{
}

/// Appending a text part to a message charges the characters of that text
/// on top of what the request was charged before, so the estimate never goes
/// down.
pub proof fn lemma_appended_text_never_lowers_estimate(request: A2ARequestView, text: Seq<char>)
    ensures
        request_chars(with_text_appended(request, text)) == request_chars(request) + text.len(),
        estimated_tokens(with_text_appended(request, text)) >= estimated_tokens(request),
{
    let parts = request.message_object.parts;
    let longer = parts.push(MessagePartView::Text { text });
    assert(longer.drop_last() =~= parts);
    lemma_tokens_monotone(request_chars(request), request_chars(with_text_appended(request, text)));
}

/// The estimate rests on the contents of a request alone: two requests that
/// hold the same get the same estimate, and no estimate is negative.
pub proof fn lemma_estimate_deterministic(first: A2ARequest, second: A2ARequest)
    requires
        first@ == second@,
    ensures
        estimated_tokens(first@) == estimated_tokens(second@),
        estimated_tokens(first@) >= 0,
{
}

/// Stopping at the first broken rule and collecting every broken rule agree:
/// the one succeeds exactly when the other finds the request valid, and
/// otherwise fails with the first error the other lists.
pub proof fn lemma_first_failure_heads_all_failures(
    request: A2ARequest,
    stopped: Result<(), ValidationError>,
)
    requires
        stopped is Ok <==> violations(request@).len() == 0,
        stopped matches Err(e) ==> e@ == violations(request@)[0],
    ensures
        stopped is Ok <==> validation_outcome(request@).valid,
        stopped matches Err(e) ==> validation_outcome(request@).errors.len() > 0 && error_text(e@)
            == validation_outcome(request@).errors[0],
{
}

/// Validation rests on the contents of a payload alone: validating the same
/// contents again yields the same verdict, estimate and errors.
pub proof fn lemma_validation_idempotent(
    first: Result<A2ARequest, String>,
    second: Result<A2ARequest, String>,
)
    requires
        decoded_view(first) == decoded_view(second),
    ensures
        payload_outcome(decoded_view(first)) == payload_outcome(decoded_view(second)),
{
}

} // verus!
