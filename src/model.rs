//! The records that travel between sender, registry and receiver.
use vstd::prelude::*;

use crate::codec::{base64_decoded, decode_base64};
use crate::envelope::{is_key_text, Envelope, KEY_LEN};

verus! {

/// A merchant as receipts describe it.
#[derive(Clone, Debug)]
pub struct Merchant {
    pub id: String,
    pub name: String,
    pub brand_color: String,
    pub logo: String,
    pub mcc: String,
    pub website: String,
}

/// An organisation known to the registry.
#[derive(Clone, Debug)]
pub struct Org {
    pub id: String,
    pub name: String,
    pub slug: String,
    pub website: String,
    pub logo_url: Option<String>,
    pub brand_color: Option<String>,
    pub stock_symbol: Option<String>,
    pub twitter: Option<String>,
    pub isin: Option<String>,
    pub lei: Option<String>,
    pub naics: Option<String>,
    pub created: i64,
}

/// A party that should get a registered transaction: where to deliver it,
/// who it is, and the secret that signs deliveries to it alone.
#[derive(Clone, Debug)]
pub struct Receiver {
    pub address: String,
    pub client_id: String,
    pub org_id: String,
    pub secret: String,
}

/// What registering a transaction gave the sender: its identifiers, the
/// single-use key (base64 of 32 bytes) and the receivers to deliver to.
#[derive(Clone, Debug)]
pub struct Registration {
    pub env: String,
    pub receipt_id: String,
    pub transaction_id: String,
    pub encryption_key: String,
    pub receivers: Vec<Receiver>,
}

/// What a receiver redeemed for a receipt at the registry.
#[derive(Clone, Debug)]
pub struct Checkout {
    pub key: String,
    pub receipt_id: String,
    pub transaction_id: String,
    pub schema_version: String,
}

/// The body of a checkout request.
#[derive(Clone, Debug)]
pub struct CheckoutRequest {
    pub receipt_id: String,
}

/// The body of a delivery from a sender to a receiver.
#[derive(Clone, Debug)]
pub struct ReceiverPayload {
    pub sender_client_id: String,
    pub receipt_id: String,
    pub envelope: Envelope,
}

/// A receiver as a registry check reports it.
#[derive(Clone, Debug)]
pub struct ReceiverInfo {
    pub client_id: String,
    pub receiver: Option<Org>,
}

/// The receivers that a registry check found.
#[derive(Clone, Debug)]
pub struct CheckRegistryResponse {
    pub receivers: Vec<ReceiverInfo>,
}

/// What a sender registers beside a receipt.
#[derive(Clone, Debug)]
pub struct RegistrationData {
    pub hash: Option<u64>,
    pub key: String,
}

/// Hints that let the registry route a transaction.
#[derive(Clone, Debug)]
pub struct RoutingInfo {
    pub customer_email: Option<String>,
    pub authorization_bin: Option<String>,
    pub authorization_par: Option<String>,
}

/// The answer to a send request.
#[derive(Clone, Debug)]
pub struct SendReceiptResponse {
    pub receipt_id: String,
    pub transaction_id: String,
}

/// The answer to a registry check.
#[derive(Clone, Copy, Debug, PartialEq, Eq, Structural)]
pub struct DryRunResponse {
    pub has_receivers: bool,
}

impl CheckoutRequest {
    /// The checkout request of a receipt.
    pub fn new(receipt_id: &str) -> (r: CheckoutRequest)
        ensures
            r.receipt_id@ == receipt_id@,
    {
        CheckoutRequest { receipt_id: String::from_str(receipt_id) }
    }
}

impl Registration {
    /// The raw key of this registration: `None` unless it is base64 of
    /// exactly 32 bytes.
    pub fn key_bytes(&self) -> (r: Option<Vec<u8>>)
        ensures
            r is Some <==> is_key_text(self.encryption_key@),
            r matches Some(k) ==> base64_decoded(self.encryption_key@) == Some(k@)
                && k@.len() == KEY_LEN,
    {
        match decode_base64(self.encryption_key.as_str()) {
            Some(k) => if k.len() == KEY_LEN {
                Some(k)
            } else {
                None
            },
            None => None,
        }
    }

    /// The answer to the send request that made this registration.
    pub fn response(&self) -> (r: SendReceiptResponse)
        ensures
            r.receipt_id@ == self.receipt_id@,
            r.transaction_id@ == self.transaction_id@,
    {
        SendReceiptResponse {
            receipt_id: self.receipt_id.clone(),
            transaction_id: self.transaction_id.clone(),
        }
    }
}

impl Checkout {
    /// Whether the checked-out key is base64 of exactly 32 bytes.
    pub fn has_usable_key(&self) -> (r: bool)
        ensures
            r == is_key_text(self.key@),
    {
        match decode_base64(self.key.as_str()) {
            Some(k) => k.len() == KEY_LEN,
            None => false,
        }
    }
}

impl DryRunResponse {
    /// The answer to a registry check: whether any receiver was found.
    pub fn from_check(check: &CheckRegistryResponse) -> (r: DryRunResponse)
        ensures
            r.has_receivers == (check.receivers@.len() > 0),
    {
        DryRunResponse { has_receivers: check.receivers.len() > 0 }
    }
}

} // verus!
