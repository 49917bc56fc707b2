//! The A2A schema model: the shape of a task request, the agent card, and the
//! structural rules a request has to meet.

use crate::text::{text_eq, texts};
use std::collections::HashMap;
use vstd::prelude::*;

verus! {

/// An incoming agent-to-agent task submission.
#[derive(Debug, Clone)]
pub struct A2ARequest {
    pub task_id: String,
    pub message_object: MessageObject,
    pub capabilities: Vec<String>,
    pub metadata: Option<serde_json::Value>,
}

/// The message an agent sends: who speaks, and what is said, part by part.
#[derive(Debug, Clone)]
pub struct MessageObject {
    pub role: String,
    pub parts: Vec<MessagePart>,
}

/// One piece of message content. The set of kinds is closed.
#[derive(Debug, Clone)]
pub enum MessagePart {
    Text { text: String },
    File { name: String, mime_type: String, uri: Option<String> },
    Data { data: HashMap<String, serde_json::Value> },
    FunctionCall { id: String, name: String, args: HashMap<String, serde_json::Value> },
    FunctionResponse { call_id: String, response: HashMap<String, serde_json::Value> },
}

/// The document in which an agent describes itself.
#[derive(Debug, Clone)]
pub struct AgentCard {
    pub name: String,
    pub description: String,
    pub url: String,
    pub version: String,
    pub capabilities: AgentCapabilities,
    pub authentication: Option<AuthenticationInfo>,
    pub skills: Option<Vec<Skill>>,
}

/// The protocol features an agent supports.
#[derive(Debug, Clone)]
pub struct AgentCapabilities {
    pub streaming: bool,
    pub push_notifications: bool,
    pub state_transition: bool,
}

/// The authentication schemes an agent accepts.
#[derive(Debug, Clone)]
pub struct AuthenticationInfo {
    pub schemes: Vec<String>,
}

/// A skill an agent offers.
#[derive(Debug, Clone)]
pub struct Skill {
    pub id: String,
    pub name: String,
    pub description: String,
    pub tags: Option<Vec<String>>,
    pub examples: Option<Vec<String>>,
}

/// A reason for which a request is turned away.
#[derive(Debug)]
pub enum ValidationError {
    MissingTaskId,
    EmptyMessageParts,
    InvalidCapability(String),
    InvalidJson(String),
}

/// What a [`MessagePart`] holds, with each text as its characters.
pub enum MessagePartView {
    Text { text: Seq<char> },
    File { name: Seq<char>, mime_type: Seq<char>, uri: Option<Seq<char>> },
    Data { data: Map<String, serde_json::Value> },
    FunctionCall { id: Seq<char>, name: Seq<char>, args: Map<String, serde_json::Value> },
    FunctionResponse { call_id: Seq<char>, response: Map<String, serde_json::Value> },
}

/// What a [`MessageObject`] holds.
pub struct MessageObjectView {
    pub role: Seq<char>,
    pub parts: Seq<MessagePartView>,
}

/// What an [`A2ARequest`] holds.
pub struct A2ARequestView {
    pub task_id: Seq<char>,
    pub message_object: MessageObjectView,
    pub capabilities: Seq<Seq<char>>,
    pub metadata: Option<serde_json::Value>,
}

/// What a [`ValidationError`] holds.
pub enum ValidationErrorView {
    MissingTaskId,
    EmptyMessageParts,
    InvalidCapability(Seq<char>),
    InvalidJson(Seq<char>),
}

/// The contents of each part of a list, in order.
pub open spec fn part_views(parts: Seq<MessagePart>) -> Seq<MessagePartView> {
    Seq::new(parts.len(), |i: int| parts[i]@)
}

impl View for MessagePart {
    type V = MessagePartView;

    open spec fn view(&self) -> MessagePartView {
        match *self {
            MessagePart::Text { text } => MessagePartView::Text { text: text@ },
            MessagePart::File { name, mime_type, uri } => MessagePartView::File {
                name: name@,
                mime_type: mime_type@,
                uri: match uri {
                    Some(u) => Some(u@),
                    None => None,
                },
            },
            MessagePart::Data { data } => MessagePartView::Data { data: data@ },
            MessagePart::FunctionCall { id, name, args } => MessagePartView::FunctionCall {
                id: id@,
                name: name@,
                args: args@,
            },
            MessagePart::FunctionResponse { call_id, response } => {
                MessagePartView::FunctionResponse { call_id: call_id@, response: response@ }
            },
        }
    }
}

impl View for MessageObject {
    type V = MessageObjectView;

    open spec fn view(&self) -> MessageObjectView {
        MessageObjectView { role: self.role@, parts: part_views(self.parts@) }
    }
}

impl View for A2ARequest {
    type V = A2ARequestView;

    open spec fn view(&self) -> A2ARequestView {
        A2ARequestView {
            task_id: self.task_id@,
            message_object: self.message_object@,
            capabilities: texts(self.capabilities@),
            metadata: self.metadata,
        }
    }
}

impl View for ValidationError {
    type V = ValidationErrorView;

    open spec fn view(&self) -> ValidationErrorView {
        match *self {
            ValidationError::MissingTaskId => ValidationErrorView::MissingTaskId,
            ValidationError::EmptyMessageParts => ValidationErrorView::EmptyMessageParts,
            ValidationError::InvalidCapability(cap) => ValidationErrorView::InvalidCapability(
                cap@,
            ),
            ValidationError::InvalidJson(reason) => ValidationErrorView::InvalidJson(reason@),
        }
    }
}

/// The capability vocabulary: the protocol features a caller may declare.
pub open spec fn is_known_capability(cap: Seq<char>) -> bool {
    ||| cap == "a2a"@
    ||| cap == "streaming"@
    ||| cap == "pushNotifications"@
    ||| cap == "stateManagement"@
    ||| cap == "artifactSupport"@
}

/// Whether a capability token lies outside the vocabulary.
pub open spec fn is_unknown_capability(cap: Seq<char>) -> bool {
    !is_known_capability(cap)
}

/// The declared capabilities that lie outside the vocabulary, in the order
/// and as often as they were declared.
pub open spec fn unknown_capabilities(caps: Seq<Seq<char>>) -> Seq<Seq<char>> {
    caps.filter(|cap: Seq<char>| is_unknown_capability(cap))
}

/// One rejection for each declared capability that lies outside the
/// vocabulary, in the order of declaration.
pub open spec fn capability_violations(caps: Seq<Seq<char>>) -> Seq<ValidationErrorView> {
    let unknown = unknown_capabilities(caps);
    Seq::new(unknown.len(), |i: int| ValidationErrorView::InvalidCapability(unknown[i]))
}

/// The rejections that concern the required fields: the task identifier
/// first, then the message parts.
pub open spec fn field_violations(request: A2ARequestView) -> Seq<ValidationErrorView> {
    let missing_task_id = if request.task_id.len() == 0 {
        seq![ValidationErrorView::MissingTaskId]
    } else {
        seq![]
    };
    let empty_parts = if request.message_object.parts.len() == 0 {
        seq![ValidationErrorView::EmptyMessageParts]
    } else {
        seq![]
    };
    missing_task_id + empty_parts
}

/// Every rule a request breaks, in the order in which the rules are checked:
/// the task identifier, the message parts, then each capability in turn.
pub open spec fn violations(request: A2ARequestView) -> Seq<ValidationErrorView> {
    field_violations(request) + capability_violations(request.capabilities)
}

/// The wording of a rejection, as a caller reads it.
pub open spec fn error_text(error: ValidationErrorView) -> Seq<char> {
    match error {
        ValidationErrorView::MissingTaskId => "task_id is required"@,
        ValidationErrorView::EmptyMessageParts => "message_object.parts cannot be empty"@,
        ValidationErrorView::InvalidCapability(cap) => "invalid capability: "@ + cap,
        ValidationErrorView::InvalidJson(reason) => "invalid JSON: "@ + reason,
    }
}

/// What is known of the unknown capabilities of a list once one more
/// capability has been looked at.
pub proof fn lemma_unknown_capabilities_step(caps: Seq<Seq<char>>, i: int)
    requires
        0 <= i < caps.len(),
    ensures
        unknown_capabilities(caps.take(i + 1)) == if is_unknown_capability(caps[i]) {
            unknown_capabilities(caps.take(i)).push(caps[i])
        } else {
            unknown_capabilities(caps.take(i))
        },
{
    reveal(Seq::filter);
    assert(caps.take(i + 1).drop_last() =~= caps.take(i));
}

impl A2ARequest {
    /// Checks the structural rules in order and stops at the first one that
    /// is broken.
    pub fn validate(&self) -> (outcome: Result<(), ValidationError>)
        ensures
            outcome is Ok <==> violations(self@).len() == 0,
            outcome matches Err(e) ==> e@ == violations(self@)[0],
    {
        if self.task_id.as_str().is_empty() {
            return Err(ValidationError::MissingTaskId);
        }
        if self.message_object.parts.len() == 0 {
            return Err(ValidationError::EmptyMessageParts);
        }
        let ghost caps = texts(self.capabilities@);
        proof {
            // No capability looked at yet, none found unknown.
            reveal(Seq::filter);
        }
        let mut i: usize = 0;
        while i < self.capabilities.len()
            invariant
                i <= self.capabilities@.len(),
                caps == texts(self.capabilities@),
                self.task_id@.len() > 0,
                self.message_object.parts@.len() > 0,
                unknown_capabilities(caps.take(i as int)).len() == 0,
            decreases self.capabilities@.len() - i,
        {
            proof {
                lemma_unknown_capabilities_step(caps, i as int);
            }
            if !Self::is_valid_capability(self.capabilities[i].as_str()) {
                let cap = self.capabilities[i].clone();
                proof {
                    let head = caps.take(i + 1);
                    let tail = caps.skip(i + 1);
                    assert(caps =~= head + tail);
                    Seq::filter_distributes_over_add(
                        head,
                        tail,
                        |cap: Seq<char>| is_unknown_capability(cap),
                    );
                }
                return Err(ValidationError::InvalidCapability(cap));
            }
            i += 1;
        }
        proof {
            assert(caps.take(i as int) =~= caps);
        }
        Ok(())
    }

    /// Whether a capability token belongs to the vocabulary.
    pub fn is_valid_capability(cap: &str) -> (known: bool)
        ensures
            known == is_known_capability(cap@),
    {
        text_eq(cap, "a2a") || text_eq(cap, "streaming") || text_eq(cap, "pushNotifications")
            || text_eq(cap, "stateManagement") || text_eq(cap, "artifactSupport")
    }
}

impl ValidationError {
    /// The wording of the rejection.
    pub fn to_string(&self) -> (text: String)
        ensures
            text@ == error_text(self@),
    {
        match self {
            ValidationError::MissingTaskId => String::from_str("task_id is required"),
            ValidationError::EmptyMessageParts => String::from_str(
                "message_object.parts cannot be empty",
            ),
            ValidationError::InvalidCapability(cap) => String::from_str(
                "invalid capability: ",
            ).concat(cap.as_str()),
            ValidationError::InvalidJson(reason) => String::from_str("invalid JSON: ").concat(
                reason.as_str(),
            ),
        }
    }
}

} // verus!
