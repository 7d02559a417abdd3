//! Classification of inbound payment-provider webhook events. The
//! transport layer parses the payload and hands the event type here;
//! every event is acknowledged.

use vstd::prelude::*;

use crate::strutil::str_eq;

verus! {

/// The kinds of webhook event the handler distinguishes.
#[derive(Debug, Clone, PartialEq, Eq)]
pub enum WebhookEventKind {
    /// A subscription was created or updated.
    SubscriptionChanged,
    /// A subscription was deleted.
    SubscriptionCanceled,
    PaymentSucceeded,
    PaymentFailed,
    Unhandled,
}

/// The webhook acknowledgement body.
#[derive(Debug, Clone)]
pub struct WebhookResponse {
    pub received: bool,
}

/// Sorts a provider event-type string into the kind the handler acts
/// on; anything unknown is left unhandled.
pub fn classify_webhook_event(event_type: &str) -> (k: WebhookEventKind)
    ensures
        event_type@ == "customer.subscription.created"@ || event_type@
            == "customer.subscription.updated"@ ==> k is SubscriptionChanged,
        event_type@ == "customer.subscription.deleted"@ ==> k is SubscriptionCanceled,
        event_type@ == "invoice.payment_succeeded"@ ==> k is PaymentSucceeded,
        event_type@ == "invoice.payment_failed"@ ==> k is PaymentFailed,
        !(event_type@ == "customer.subscription.created"@ || event_type@
            == "customer.subscription.updated"@ || event_type@
            == "customer.subscription.deleted"@ || event_type@ == "invoice.payment_succeeded"@
            || event_type@ == "invoice.payment_failed"@) ==> k is Unhandled,
{
    proof {
        reveal_strlit("customer.subscription.created");
        reveal_strlit("customer.subscription.updated");
        reveal_strlit("customer.subscription.deleted");
        reveal_strlit("invoice.payment_succeeded");
        reveal_strlit("invoice.payment_failed");
        assert("customer.subscription.created"@[22] == 'c');
        assert("customer.subscription.updated"@[22] == 'u');
        assert("customer.subscription.deleted"@[22] == 'd');
        assert("customer.subscription.created"@.len() == 29);
        assert("customer.subscription.updated"@.len() == 29);
        assert("customer.subscription.deleted"@.len() == 29);
        assert("invoice.payment_succeeded"@.len() == 25);
        assert("invoice.payment_failed"@.len() == 22);
    }
    if str_eq(event_type, "customer.subscription.created") || str_eq(
        event_type,
        "customer.subscription.updated",
    ) {
        WebhookEventKind::SubscriptionChanged
    } else if str_eq(event_type, "customer.subscription.deleted") {
        WebhookEventKind::SubscriptionCanceled
    } else if str_eq(event_type, "invoice.payment_succeeded") {
        WebhookEventKind::PaymentSucceeded
    } else if str_eq(event_type, "invoice.payment_failed") {
        WebhookEventKind::PaymentFailed
    } else {
        WebhookEventKind::Unhandled
    }
}

/// The acknowledgement every webhook request receives.
pub fn webhook_ack() -> (r: WebhookResponse)
    ensures
        r.received,
{
    WebhookResponse { received: true }
}

} // verus!
