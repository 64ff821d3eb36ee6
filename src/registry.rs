//! The registry handshake as seen from this side: where each request goes,
//! how it is authenticated, and what each reply comes to. Every call is a
//! single request and reply: no retry, no partial decoding.
use vstd::prelude::*;
use vstd::string::StringExecFns;

verus! {

/// The requests that the registry answers.
#[derive(Clone, Copy, Debug, PartialEq, Eq, Structural)]
pub enum RegistryOperation {
    /// Sender: register a transaction and learn its receivers.
    Register,
    /// Sender: learn the receivers of some handles without registering.
    CheckRegistry,
    /// Receiver: redeem the key of a receipt.
    Checkout,
    /// Receiver: report a misuse of a receipt.
    ReportMisuse,
    /// Either side: register (POST) or deregister (DELETE) a customer
    /// reference.
    Customer,
}

/// The path of an operation under the registry's base URL.
pub open spec fn operation_path(op: RegistryOperation) -> Seq<char> {
    match op {
        RegistryOperation::Register => "/register"@,
        RegistryOperation::CheckRegistry => "/check_registry"@,
        RegistryOperation::Checkout => "/checkout"@,
        RegistryOperation::ReportMisuse => "/report_misuse"@,
        RegistryOperation::Customer => "/customer"@,
    }
}

impl RegistryOperation {
    /// The path of this operation.
    pub fn path(&self) -> (r: &'static str)
        ensures
            r@ == operation_path(*self),
    {
        match self {
            RegistryOperation::Register => "/register",
            RegistryOperation::CheckRegistry => "/check_registry",
            RegistryOperation::Checkout => "/checkout",
            RegistryOperation::ReportMisuse => "/report_misuse",
            RegistryOperation::Customer => "/customer",
        }
    }
}

/// The URL of an operation at a registry.
pub fn endpoint_url(registry_url: &str, op: RegistryOperation) -> (r: String)
    ensures
        r@ == registry_url@ + operation_path(op),
{
    let mut url = String::from_str(registry_url);
    url.append(op.path());
    url
}

/// The `Authorization` value of a client: the literal words
/// `Basic <client_id>:<client_secret>`, not base64.
pub fn credential(client_id: &str, client_secret: &str) -> (r: String)
    ensures
        r@ == "Basic "@ + client_id@ + ":"@ + client_secret@,
{
    let mut c = String::from_str("Basic ");
    c.append(client_id);
    c.append(":");
    c.append(client_secret);
    c
}

/// Whether an HTTP status is a success (2xx).
pub open spec fn is_success(status: u16) -> bool {
    200 <= status && status < 300
}

/// Whether an HTTP status is a success (2xx).
pub fn is_success_status(status: u16) -> (r: bool)
    ensures
        r == is_success(status),
{
    200 <= status && status < 300
}

/// What came back from one request to the registry.
#[derive(Clone, Debug)]
pub enum RegistryReply<T> {
    /// The request did not get an answer (network, DNS, timeout).
    Unreachable,
    /// The registry answered with a status, and a body that was read as the
    /// expected shape, or not.
    Answered { status: u16, body: Option<T> },
}

/// Why a registry request failed; each is an opaque, final failure.
#[derive(Clone, Copy, Debug, PartialEq, Eq, Structural)]
pub enum RegistryError {
    /// No answer came back.
    Transport,
    /// The registry answered with a status other than 2xx.
    Status(u16),
    /// A 2xx answer whose body was not of the expected shape.
    Malformed,
}

/// What a reply that should carry a body comes to.
pub open spec fn reply_outcome<T>(reply: RegistryReply<T>) -> Result<T, RegistryError> {
    match reply {
        RegistryReply::Unreachable => Err(RegistryError::Transport),
        RegistryReply::Answered { status, body } => if !is_success(status) {
            Err(RegistryError::Status(status))
        } else {
            match body {
                Some(b) => Ok(b),
                None => Err(RegistryError::Malformed),
            }
        },
    }
}

/// Reads a reply that should carry a body (registration, registry check,
/// checkout): its body on a 2xx status, else the failure.
pub fn read_reply<T>(reply: RegistryReply<T>) -> (r: Result<T, RegistryError>)
    ensures
        r == reply_outcome(reply),
{
    match reply {
        RegistryReply::Unreachable => Err(RegistryError::Transport),
        RegistryReply::Answered { status, body } => {
            if !is_success_status(status) {
                Err(RegistryError::Status(status))
            } else {
                match body {
                    Some(b) => Ok(b),
                    None => Err(RegistryError::Malformed),
                }
            }
        },
    }
}

/// Reads a reply whose body is not read (a misuse report, a customer
/// reference): success on a 2xx status.
pub fn read_status_reply(reply: RegistryReply<()>) -> (r: Result<(), RegistryError>)
    ensures
        r == (match reply {
            RegistryReply::Unreachable => Err(RegistryError::Transport),
            RegistryReply::Answered { status, body: _ } => if is_success(status) {
                Ok(())
            } else {
                Err(RegistryError::Status(status))
            },
        }),
{
    match reply {
        RegistryReply::Unreachable => Err(RegistryError::Transport),
        RegistryReply::Answered { status, body: _ } => {
            if is_success_status(status) {
                Ok(())
            } else {
                Err(RegistryError::Status(status))
            }
        },
    }
}

/// The client string sent with each request:
/// `rust-client-official/<package version>/<image version>`, the last part
/// empty where no image version is set.
pub fn get_client_string(package_version: &str, image_version: Option<&str>) -> (r: String)
    ensures
        r@ == "rust-client-official/"@ + package_version@ + "/"@ + (match image_version {
            Some(v) => v@,
            None => Seq::<char>::empty(),
        }),
{
    let mut s = String::from_str("rust-client-official/");
    s.append(package_version);
    s.append("/");
    match image_version {
        Some(v) => s.append(v),
        None => {},
    }
    s
}

} // verus!
