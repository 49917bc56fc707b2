//! The admission decision: one request is validated, costed, charged to its
//! caller's bucket and gated on the caller's trust, in that order.

use crate::a2a::{A2ARequest, A2ARequestView};
use crate::bucket::RateState;
use crate::text::texts;
use crate::validation::{decoded_view, payload_outcome, validate_a2a_payload};
use vstd::prelude::*;

verus! {

/// The ceiling on the cost of a single request where none is configured.
pub const DEFAULT_MAX_TOKENS_PER_REQUEST: u64 = 100_000;

/// The configured limits a request is held against.
#[derive(Debug, Clone, Copy)]
pub struct AdmissionLimits {
    /// The most tokens a single request may cost, whatever its caller's
    /// bucket holds.
    pub max_tokens_per_request: u64,
    /// The most tokens a caller's bucket holds.
    pub token_bucket_capacity: u64,
    /// The tokens a caller's bucket gains per unit of time.
    pub token_bucket_rate: u64,
}

/// What is remembered of a caller's conduct: how many of its requests were
/// turned away for a fault of their own. The count never goes down.
#[derive(Debug, Clone, Copy)]
pub struct TrustState {
    pub violation_count: u32,
}

/// How the decision on one request ends.
#[derive(Debug)]
pub enum AdmissionOutcome {
    Admitted { estimated_tokens: u64 },
    RejectedMalformed { reason: String },
    RejectedValidation { errors: Vec<String> },
    RejectedTokenLimit { estimated_tokens: u64 },
    RejectedRateLimited,
    RejectedLowTrust,
}

/// What an [`AdmissionOutcome`] holds.
pub enum AdmissionOutcomeView {
    Admitted { estimated_tokens: nat },
    RejectedMalformed { reason: Seq<char> },
    RejectedValidation { errors: Seq<Seq<char>> },
    RejectedTokenLimit { estimated_tokens: nat },
    RejectedRateLimited,
    RejectedLowTrust,
}

impl View for AdmissionOutcome {
    type V = AdmissionOutcomeView;

    open spec fn view(&self) -> AdmissionOutcomeView {
        match *self {
            AdmissionOutcome::Admitted { estimated_tokens } => AdmissionOutcomeView::Admitted {
                estimated_tokens: estimated_tokens as nat,
            },
            AdmissionOutcome::RejectedMalformed { reason } => {
                AdmissionOutcomeView::RejectedMalformed { reason: reason@ }
            },
            AdmissionOutcome::RejectedValidation { errors } => {
                AdmissionOutcomeView::RejectedValidation { errors: texts(errors@) }
            },
            AdmissionOutcome::RejectedTokenLimit { estimated_tokens } => {
                AdmissionOutcomeView::RejectedTokenLimit {
                    estimated_tokens: estimated_tokens as nat,
                }
            },
            AdmissionOutcome::RejectedRateLimited => AdmissionOutcomeView::RejectedRateLimited,
            AdmissionOutcome::RejectedLowTrust => AdmissionOutcomeView::RejectedLowTrust,
        }
    }
}

/// Whether a body was decoded into a request that breaks no rule and costs
/// no more than a single request may: the requests that reach the bucket.
pub open spec fn reaches_bucket(
    decoded: Result<A2ARequestView, Seq<char>>,
    limits: AdmissionLimits,
) -> bool {
    payload_outcome(decoded) matches Ok(checked) && checked.valid && checked.estimated_tokens
        <= limits.max_tokens_per_request
}

/// The caller's bucket once the request is decided: brought up to date and
/// charged if the request reaches it, untouched otherwise.
pub open spec fn rate_after(
    decoded: Result<A2ARequestView, Seq<char>>,
    limits: AdmissionLimits,
    rate: RateState,
    now: u64,
) -> RateState {
    if reaches_bucket(decoded, limits) {
        rate.after_request(
            limits.token_bucket_capacity,
            limits.token_bucket_rate,
            now,
            payload_outcome(decoded)->Ok_0.estimated_tokens as u64,
        )
    } else {
        rate
    }
}

/// The outcome for one request. The stages run in order and the first that
/// objects decides: decoding, validation, the ceiling on a single request,
/// the caller's bucket, the caller's trust.
pub open spec fn admission_outcome(
    decoded: Result<A2ARequestView, Seq<char>>,
    limits: AdmissionLimits,
    rate: RateState,
    now: u64,
    trusted: bool,
) -> AdmissionOutcomeView {
    match payload_outcome(decoded) {
        Err(reason) => AdmissionOutcomeView::RejectedMalformed { reason },
        Ok(checked) => {
            if !checked.valid {
                AdmissionOutcomeView::RejectedValidation { errors: checked.errors }
            } else if checked.estimated_tokens > limits.max_tokens_per_request {
                AdmissionOutcomeView::RejectedTokenLimit {
                    estimated_tokens: checked.estimated_tokens,
                }
            } else if !rate.admits(
                limits.token_bucket_capacity,
                limits.token_bucket_rate,
                now,
                checked.estimated_tokens as u64,
            ) {
                AdmissionOutcomeView::RejectedRateLimited
            } else if !trusted {
                AdmissionOutcomeView::RejectedLowTrust
            } else {
                AdmissionOutcomeView::Admitted { estimated_tokens: checked.estimated_tokens }
            }
        },
    }
}

/// What is sent back for a request that is turned away: the response status,
/// what went wrong, and the reasons one by one where there are several.
#[derive(Debug)]
pub struct Rejection {
    pub status: u32,
    pub error: String,
    pub details: Vec<String>,
}

/// What a [`Rejection`] holds.
pub struct RejectionView {
    pub status: u32,
    pub error: Seq<char>,
    pub details: Seq<Seq<char>>,
}

impl View for Rejection {
    type V = RejectionView;

    open spec fn view(&self) -> RejectionView {
        RejectionView {
            status: self.status,
            error: self.error@,
            details: texts(self.details@),
        }
    }
}

/// The response to an outcome: none for an admitted request; a client error
/// for a request that is malformed, invalid or too costly; "too many
/// requests" for one the bucket has no room for; "forbidden" for a caller of
/// low trust.
pub open spec fn rejection_for(outcome: AdmissionOutcomeView) -> Option<RejectionView> {
    match outcome {
        AdmissionOutcomeView::Admitted { estimated_tokens } => None,
        AdmissionOutcomeView::RejectedMalformed { reason } => Some(
            RejectionView { status: 400, error: reason, details: seq![] },
        ),
        AdmissionOutcomeView::RejectedValidation { errors } => Some(
            RejectionView { status: 400, error: "invalid_a2a_payload"@, details: errors },
        ),
        AdmissionOutcomeView::RejectedTokenLimit { estimated_tokens } => Some(
            RejectionView { status: 400, error: "Token limit exceeded"@, details: seq![] },
        ),
        AdmissionOutcomeView::RejectedRateLimited => Some(
            RejectionView { status: 429, error: "Rate limit exceeded"@, details: seq![] },
        ),
        AdmissionOutcomeView::RejectedLowTrust => Some(
            RejectionView { status: 403, error: "Trust score too low"@, details: seq![] },
        ),
    }
}

/// Whether an outcome counts against its caller: a request that broke a rule,
/// or one the bucket had no room for. Low trust follows from earlier
/// violations and is not one itself.
pub open spec fn is_violation(outcome: AdmissionOutcomeView) -> bool {
    outcome is RejectedValidation || outcome is RejectedRateLimited
}

/// The caller's record once the request is decided: one violation more if
/// the outcome counts against the caller, unchanged otherwise.
pub open spec fn trust_after(outcome: AdmissionOutcomeView, trust: TrustState) -> TrustState {
    if is_violation(outcome) {
        trust.with_violation()
    } else {
        trust
    }
}

impl AdmissionOutcome {
    /// Whether the request goes through.
    pub fn is_admitted(&self) -> (admitted: bool)
        ensures
            admitted == (self@ is Admitted),
    {
        match self {
            AdmissionOutcome::Admitted { .. } => true,
            _ => false,
        }
    }

    /// The response that turns the request away, if it is turned away.
    pub fn into_rejection(self) -> (rejection: Option<Rejection>)
        ensures
            match rejection {
                Some(r) => rejection_for(self@) == Some(r@),
                None => rejection_for(self@) is None,
            },
    {
        let none: Vec<String> = Vec::new();
        assert(texts(none@) =~= Seq::<Seq<char>>::empty());
        match self {
            AdmissionOutcome::Admitted { .. } => None,
            AdmissionOutcome::RejectedMalformed { reason } => Some(
                Rejection { status: 400, error: reason, details: none },
            ),
            AdmissionOutcome::RejectedValidation { errors } => Some(
                Rejection {
                    status: 400,
                    error: String::from_str("invalid_a2a_payload"),
                    details: errors,
                },
            ),
            AdmissionOutcome::RejectedTokenLimit { .. } => Some(
                Rejection {
                    status: 400,
                    error: String::from_str("Token limit exceeded"),
                    details: none,
                },
            ),
            AdmissionOutcome::RejectedRateLimited => Some(
                Rejection {
                    status: 429,
                    error: String::from_str("Rate limit exceeded"),
                    details: none,
                },
            ),
            AdmissionOutcome::RejectedLowTrust => Some(
                Rejection {
                    status: 403,
                    error: String::from_str("Trust score too low"),
                    details: none,
                },
            ),
        }
    }
}

impl TrustState {
    /// The record of a caller seen for the first time: no violations.
    pub fn new() -> (state: TrustState)
        ensures
            state.violation_count == 0,
    {
        TrustState { violation_count: 0 }
    }

    /// The record with one more violation. The count stops at the largest
    /// value it has room for.
    pub open spec fn with_violation(self) -> TrustState {
        TrustState {
            violation_count: if self.violation_count < u32::MAX {
                (self.violation_count + 1) as u32
            } else {
                self.violation_count
            },
        }
    }

    /// Counts one violation.
    pub fn record_violation(&mut self)
        ensures
            *final(self) == old(self).with_violation(),
    {
        if self.violation_count < u32::MAX {
            self.violation_count = self.violation_count + 1;
        }
    }
}

/// Decides one request.
///
/// `decoded` is the body once decoded, or the decoder's account of why it
/// could not be. `trusted` is false exactly when the caller's trust score,
/// taken from `trust.violation_count` as it stands before the call, is below
/// the configured minimum. Time must not have run backwards since the bucket
/// was last brought up to date.
///
/// The bucket is brought up to date exactly when the request reaches it, and
/// the caller's violations grow by one exactly when the request is turned
/// away by validation or by the bucket.
pub fn decide_admission(
    decoded: &Result<A2ARequest, String>,
    limits: &AdmissionLimits,
    rate: &mut RateState,
    trust: &mut TrustState,
    now: u64,
    trusted: bool,
) -> (outcome: AdmissionOutcome)
    requires
        old(rate).last_update_time <= now,
    ensures
        outcome@ == admission_outcome(decoded_view(*decoded), *limits, *old(rate), now, trusted),
        *final(rate) == rate_after(decoded_view(*decoded), *limits, *old(rate), now),
        *final(trust) == trust_after(outcome@, *old(trust)),
        final(trust).violation_count >= old(trust).violation_count,
        final(rate).last_update_time >= old(rate).last_update_time,
        reaches_bucket(decoded_view(*decoded), *limits) ==> final(rate).stored_tokens
            <= limits.token_bucket_capacity,
{
    let checked = match validate_a2a_payload(decoded) {
        Ok(checked) => checked,
        Err(reason) => {
            return AdmissionOutcome::RejectedMalformed { reason };
        },
    };
    if !checked.valid {
        trust.record_violation();
        return AdmissionOutcome::RejectedValidation { errors: checked.errors };
    }
    let estimated_tokens = checked.estimated_tokens;
    if estimated_tokens > limits.max_tokens_per_request {
        return AdmissionOutcome::RejectedTokenLimit { estimated_tokens };
    }
    let admitted = rate.charge(
        limits.token_bucket_capacity,
        limits.token_bucket_rate,
        now,
        estimated_tokens,
    );
    if !admitted {
        trust.record_violation();
        return AdmissionOutcome::RejectedRateLimited;
    }
    if !trusted {
        return AdmissionOutcome::RejectedLowTrust;
    }
    AdmissionOutcome::Admitted { estimated_tokens }
}

} // verus!
