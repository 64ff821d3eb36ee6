//! The receiver's side of a delivery. Authentication, checkout and
//! decryption failures reject the request; a schema mismatch is reported to
//! the registry and the data is still accepted.
use vstd::prelude::*;
use vstd::string::StringExecFns;

use crate::auth::{signature_accepted, verify_with_secret};
use crate::envelope::{decrypt_envelope, decryption_misuse, decryption_result, is_key_text, Envelope};
use crate::codec::base64_decoded;
use crate::misuse::MisuseCode;
use crate::model::Checkout;
use crate::registry::RegistryError;

verus! {

/// The request's signature header as it came.
#[derive(Clone, Debug)]
pub enum SignatureHeader {
    /// No `X-Request-Signature` header.
    Missing,
    /// A header whose value is not visible ASCII text.
    Malformed,
    /// The header's text.
    Present(String),
}

/// A request turned down: the HTTP status and the reason given.
#[derive(Clone, Debug)]
pub struct Rejection {
    pub status: u16,
    pub message: String,
}

/// Status of a request that is accepted.
pub const STATUS_OK: u16 = 200;

/// Status of a malformed request, or of one whose envelope is misused.
pub const STATUS_BAD_REQUEST: u16 = 400;

/// Status of a request whose signature does not match.
pub const STATUS_UNAUTHORIZED: u16 = 401;

/// Status of a request that the registry could not serve.
pub const STATUS_INTERNAL_ERROR: u16 = 500;

/// Checks the signature of a request against the body as received and the
/// receiver's shared secret. Nothing else of the request may be looked at
/// unless this succeeds.
pub fn authenticate(header: &SignatureHeader, body: &[u8], secret: &str) -> (r: Result<(), Rejection>)
    ensures
        header is Missing ==> (r matches Err(j) && j.status == STATUS_BAD_REQUEST
            && j.message@ == "Missing X-Request-Signature header"@),
        header is Malformed ==> (r matches Err(j) && j.status == STATUS_BAD_REQUEST
            && j.message@ == "Malformed X-Request-Signature header"@),
        header matches SignatureHeader::Present(t) ==> (r is Ok <==> signature_accepted(body@, secret@, t@)),
        header matches SignatureHeader::Present(t) ==> (r matches Err(j) ==> j.status == STATUS_UNAUTHORIZED
            && j.message@ == "Failed to verify request signature"@),
{
    match header {
        SignatureHeader::Missing => Err(Rejection {
            status: STATUS_BAD_REQUEST,
            message: String::from_str("Missing X-Request-Signature header"),
        }),
        SignatureHeader::Malformed => Err(Rejection {
            status: STATUS_BAD_REQUEST,
            message: String::from_str("Malformed X-Request-Signature header"),
        }),
        SignatureHeader::Present(token) => {
            if verify_with_secret(body, secret, token.as_str()) {
                Ok(())
            } else {
                Err(Rejection {
                    status: STATUS_UNAUTHORIZED,
                    message: String::from_str("Failed to verify request signature"),
                })
            }
        },
    }
}

/// The rejection of an authenticated body that could not be read.
pub fn body_rejection(reason: &str) -> (r: Rejection)
    ensures
        r.status == STATUS_BAD_REQUEST,
        r.message@ == "Failed to parse body: "@ + reason@,
{
    let mut message = String::from_str("Failed to parse body: ");
    message.append(reason);
    Rejection { status: STATUS_BAD_REQUEST, message }
}

/// Whether an event kind is one that this receiver handles; other kinds are
/// tolerated and only noted.
pub fn is_known_event(kind: &str) -> (r: bool)
    ensures
        r == (kind@ == "receipt"@ || kind@ == "itinerary"@),
{
    let receipt = String::from_str("receipt");
    let itinerary = String::from_str("itinerary");
    let k = String::from_str(kind);
    k == receipt || k == itinerary
}

/// Takes the registry's answer to a checkout: the checkout, if it came back
/// with a usable key; otherwise the request fails with an internal error.
pub fn accept_checkout(reply: Result<Checkout, RegistryError>) -> (r: Result<Checkout, Rejection>)
    ensures
        r is Ok <==> (reply matches Ok(c) && is_key_text(c.key@)),
        r matches Ok(c) ==> reply == Ok::<Checkout, RegistryError>(c),
        r matches Err(j) ==> j.status == STATUS_INTERNAL_ERROR && j.message@ == "Failed to checkout key"@,
{
    match reply {
        Ok(c) => {
            if c.has_usable_key() {
                Ok(c)
            } else {
                Err(Rejection {
                    status: STATUS_INTERNAL_ERROR,
                    message: String::from_str("Failed to checkout key"),
                })
            }
        },
        Err(_) => Err(Rejection {
            status: STATUS_INTERNAL_ERROR,
            message: String::from_str("Failed to checkout key"),
        }),
    }
}

/// The name under which a misuse appears in a rejection's message.
pub open spec fn misuse_label(code: MisuseCode) -> Seq<char> {
    match code {
        MisuseCode::ProtocolDecryptionFailed => "ProtocolDecryptionFailed"@,
        MisuseCode::ProtocolDeserializationFailed => "ProtocolDeserializationFailed"@,
        MisuseCode::SchemaValidationFailed => "SchemaValidationFailed"@,
        MisuseCode::SchemaVersionInvalid => "SchemaVersionInvalid"@,
    }
}

/// The rejection of a delivery whose envelope is misused (after the misuse
/// has been reported).
pub fn decryption_rejection(code: MisuseCode) -> (r: Rejection)
    ensures
        r.status == STATUS_BAD_REQUEST,
        r.message@ == "Failed to decrypt envelope: "@ + misuse_label(code),
{
    let mut message = String::from_str("Failed to decrypt envelope: ");
    let label = match code {
        MisuseCode::ProtocolDecryptionFailed => "ProtocolDecryptionFailed",
        MisuseCode::ProtocolDeserializationFailed => "ProtocolDeserializationFailed",
        MisuseCode::SchemaValidationFailed => "SchemaValidationFailed",
        MisuseCode::SchemaVersionInvalid => "SchemaVersionInvalid",
    };
    message.append(label);
    Rejection { status: STATUS_BAD_REQUEST, message }
}

/// What a receiver does once a delivery is authenticated and its key is
/// checked out.
#[derive(Debug)]
pub enum Decision {
    /// Validate the decrypted payload against its schema.
    Validate(serde_json::Value),
    /// Report the misuse to the registry, then reject the request.
    ReportAndReject(MisuseCode),
    /// Reject the request: the registry gave no usable key.
    Reject,
}

/// The receiver's decision from the registry's checkout answer and the
/// delivered envelope.
pub fn decide_delivery(envelope: &Envelope, checkout: &Result<Checkout, RegistryError>) -> (r: Decision)
    ensures
        match checkout {
            Ok(c) => if is_key_text(c.key@) {
                let k = base64_decoded(c.key@)->Some_0;
                match decryption_misuse(envelope.encrypted@, envelope.nonce@, k) {
                    None => (r matches Decision::Validate(v)
                        && decryption_result(envelope.encrypted@, envelope.nonce@, k) == Ok::<serde_json::Value, MisuseCode>(v)),
                    Some(code) => r == Decision::ReportAndReject(code),
                }
            } else {
                r is Reject
            },
            Err(_) => r is Reject,
        },
{
    match checkout {
        Ok(c) => {
            if c.has_usable_key() {
                match decrypt_envelope(envelope, &c.key) {
                    Ok(v) => Decision::Validate(v),
                    Err(code) => Decision::ReportAndReject(code),
                }
            } else {
                Decision::Reject
            }
        },
        Err(_) => Decision::Reject,
    }
}

/// The misuse to report after schema validation, if any. Whatever it is,
/// the delivery is still accepted.
pub fn validation_misuse(result: &Result<(), MisuseCode>) -> (r: Option<MisuseCode>)
    ensures
        match result {
            Ok(()) => r is None,
            Err(c) => r == Some(*c),
        },
{
    match result {
        Ok(()) => None,
        Err(c) => Some(*c),
    }
}

/// Where a delivery stands on the receiver's path.
#[derive(Clone, Copy, Debug, PartialEq, Eq, Structural)]
pub enum Stage {
    Received,
    SignatureVerified,
    Parsed,
    KeyCheckedOut,
    Decrypted,
    Accepted,
    Rejected,
}

/// The result of the work that one stage waits for.
#[derive(Clone, Copy, Debug, PartialEq, Eq, Structural)]
pub enum Step {
    /// The signature matched, or not.
    SignatureChecked(bool),
    /// The body was read as a delivery, or not.
    BodyParsed(bool),
    /// The registry gave a usable key, or not.
    CheckoutAnswered(bool),
    /// Decryption gave a JSON payload (`None`) or a misuse.
    DecryptionDone(Option<MisuseCode>),
    /// Schema validation passed (`None`) or found a misuse.
    ValidationDone(Option<MisuseCode>),
}

/// What the receiver does after a step.
#[derive(Clone, Copy, Debug, PartialEq, Eq, Structural)]
pub enum Action {
    /// Go on to the next piece of work.
    Proceed,
    /// Reject the request; nothing more is done with it.
    Reject,
    /// Report the misuse to the registry, then reject the request.
    ReportAndReject(MisuseCode),
    /// Report the misuse to the registry, and accept the data all the same.
    ReportAndAccept(MisuseCode),
    /// Accept the data.
    Accept,
    /// The step does not belong to this stage: nothing changes.
    Stay,
}

/// The receiver's transitions. Failures before the payload is decrypted are
/// fatal; a schema mismatch is reported and the data accepted.
pub open spec fn transition(stage: Stage, step: Step) -> (Stage, Action) {
    match (stage, step) {
        (Stage::Received, Step::SignatureChecked(ok)) => if ok {
            (Stage::SignatureVerified, Action::Proceed)
        } else {
            (Stage::Rejected, Action::Reject)
        },
        (Stage::SignatureVerified, Step::BodyParsed(ok)) => if ok {
            (Stage::Parsed, Action::Proceed)
        } else {
            (Stage::Rejected, Action::Reject)
        },
        (Stage::Parsed, Step::CheckoutAnswered(ok)) => if ok {
            (Stage::KeyCheckedOut, Action::Proceed)
        } else {
            (Stage::Rejected, Action::Reject)
        },
        (Stage::KeyCheckedOut, Step::DecryptionDone(m)) => match m {
            None => (Stage::Decrypted, Action::Proceed),
            Some(code) => (Stage::Rejected, Action::ReportAndReject(code)),
        },
        (Stage::Decrypted, Step::ValidationDone(m)) => match m {
            None => (Stage::Accepted, Action::Accept),
            Some(code) => (Stage::Accepted, Action::ReportAndAccept(code)),
        },
        _ => (stage, Action::Stay),
    }
}

/// Takes one step on the receiver's path.
pub fn advance(stage: Stage, step: Step) -> (r: (Stage, Action))
    ensures
        r == transition(stage, step),
{
    match (stage, step) {
        (Stage::Received, Step::SignatureChecked(ok)) => if ok {
            (Stage::SignatureVerified, Action::Proceed)
        } else {
            (Stage::Rejected, Action::Reject)
        },
        (Stage::SignatureVerified, Step::BodyParsed(ok)) => if ok {
            (Stage::Parsed, Action::Proceed)
        } else {
            (Stage::Rejected, Action::Reject)
        },
        (Stage::Parsed, Step::CheckoutAnswered(ok)) => if ok {
            (Stage::KeyCheckedOut, Action::Proceed)
        } else {
            (Stage::Rejected, Action::Reject)
        },
        (Stage::KeyCheckedOut, Step::DecryptionDone(m)) => match m {
            None => (Stage::Decrypted, Action::Proceed),
            Some(code) => (Stage::Rejected, Action::ReportAndReject(code)),
        },
        (Stage::Decrypted, Step::ValidationDone(m)) => match m {
            None => (Stage::Accepted, Action::Accept),
            Some(code) => (Stage::Accepted, Action::ReportAndAccept(code)),
        },
        _ => (stage, Action::Stay),
    }
}

/// The stage reached from `stage` after the steps, in order.
pub open spec fn run(stage: Stage, steps: Seq<Step>) -> Stage
    decreases steps.len(),
{
    if steps.len() == 0 {
        stage
    } else {
        run(transition(stage, steps[0]).0, steps.skip(1))
    }
}

/// Whether the steps hold the given one.
pub open spec fn took(steps: Seq<Step>, step: Step) -> bool {
    exists|i: int| 0 <= i < steps.len() && steps[i] == step
}

/// What must still happen, from a stage on, before a delivery can be
/// accepted.
pub open spec fn gates_passed(stage: Stage, steps: Seq<Step>) -> bool {
    &&& (stage == Stage::Received ==> took(steps, Step::SignatureChecked(true)))
    &&& ((stage == Stage::Received || stage == Stage::SignatureVerified) ==> took(steps, Step::BodyParsed(true)))
    &&& ((stage == Stage::Received || stage == Stage::SignatureVerified || stage == Stage::Parsed)
        ==> took(steps, Step::CheckoutAnswered(true)))
    &&& ((stage == Stage::Received || stage == Stage::SignatureVerified || stage == Stage::Parsed
        || stage == Stage::KeyCheckedOut) ==> took(steps, Step::DecryptionDone(None)))
}

proof fn lemma_took_tail(steps: Seq<Step>, step: Step)
    requires
        steps.len() > 0,
        took(steps.skip(1), step),
    ensures
        took(steps, step),
{
    let i = choose|i: int| 0 <= i < steps.skip(1).len() && steps.skip(1)[i] == step;
    assert(steps[i + 1] == step);
}

/// A delivery is accepted only after its signature matched, its body was
/// read, the registry gave a usable key and the envelope decrypted to JSON;
/// a rejected delivery stays rejected whatever comes after.
pub proof fn lemma_accepted_only_when_authenticated(stage: Stage, steps: Seq<Step>)
    ensures
        run(stage, steps) == Stage::Accepted ==> gates_passed(stage, steps),
        stage == Stage::Rejected ==> run(stage, steps) == Stage::Rejected,
    decreases steps.len(),
{
    if steps.len() > 0 {
        let next = transition(stage, steps[0]).0;
        lemma_accepted_only_when_authenticated(next, steps.skip(1));
        if run(stage, steps) == Stage::Accepted {
            let tail = steps.skip(1);
            if took(tail, Step::SignatureChecked(true)) {
                lemma_took_tail(steps, Step::SignatureChecked(true));
            }
            if took(tail, Step::BodyParsed(true)) {
                lemma_took_tail(steps, Step::BodyParsed(true));
            }
            if took(tail, Step::CheckoutAnswered(true)) {
                lemma_took_tail(steps, Step::CheckoutAnswered(true));
            }
            if took(tail, Step::DecryptionDone(None)) {
                lemma_took_tail(steps, Step::DecryptionDone(None));
            }
        }
    }
}

} // verus!
