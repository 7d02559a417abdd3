//! Subscription tiers and statuses synchronized from the payment
//! provider, and the per-tier usage limits.

use vstd::prelude::*;

use crate::strutil::str_eq;

verus! {

/// The subscription tier a user is on.
#[derive(Debug, Clone, PartialEq, Eq)]
pub enum SubscriptionTier {
    Free,
    Pro,
    Elite,
}

/// The provider-side lifecycle state of a subscription.
#[derive(Debug, Clone, PartialEq, Eq)]
pub enum SubscriptionStatus {
    Active,
    Canceled,
    PastDue,
    Trialing,
}

/// The payment-provider client. Holds the provider secret; the mapping
/// helpers below are pure.
#[derive(Debug, Clone)]
pub struct StripeService {
    secret_key: String,
}

impl StripeService {
    /// The configured provider secret.
    pub closed spec fn secret_key(&self) -> Seq<char> {
        self.secret_key@
    }

    pub fn new(secret_key: String) -> (s: Self)
        ensures
            s.secret_key() == secret_key@,
    {
        StripeService { secret_key }
    }

    /// Maps a provider price identifier to the tier it purchases; an
    /// unknown identifier falls back to the free tier.
    pub fn price_id_to_tier(price_id: &str) -> (t: SubscriptionTier)
        ensures
            price_id@ == "price_pro"@ || price_id@ == "price_1ProMonthly"@ ==> t is Pro,
            price_id@ == "price_elite"@ || price_id@ == "price_1EliteMonthly"@ ==> t is Elite,
            !(price_id@ == "price_pro"@ || price_id@ == "price_1ProMonthly"@ || price_id@
                == "price_elite"@ || price_id@ == "price_1EliteMonthly"@) ==> t is Free,
    {
        proof {
            reveal_strlit("price_pro");
            reveal_strlit("price_1ProMonthly");
            reveal_strlit("price_elite");
            reveal_strlit("price_1EliteMonthly");
            assert("price_pro"@.len() == 9);
            assert("price_1ProMonthly"@.len() == 17);
            assert("price_elite"@.len() == 11);
            assert("price_1EliteMonthly"@.len() == 19);
        }
        if str_eq(price_id, "price_pro") || str_eq(price_id, "price_1ProMonthly") {
            SubscriptionTier::Pro
        } else if str_eq(price_id, "price_elite") || str_eq(price_id, "price_1EliteMonthly") {
            SubscriptionTier::Elite
        } else {
            SubscriptionTier::Free
        }
    }

    /// Maps a provider subscription-status string to the local state;
    /// an unknown string is treated as canceled.
    pub fn convert_status(status: &str) -> (s: SubscriptionStatus)
        ensures
            status@ == "active"@ ==> s is Active,
            status@ == "canceled"@ ==> s is Canceled,
            status@ == "past_due"@ ==> s is PastDue,
            status@ == "trialing"@ ==> s is Trialing,
            !(status@ == "active"@ || status@ == "canceled"@ || status@ == "past_due"@ || status@
                == "trialing"@) ==> s is Canceled,
    {
        proof {
            reveal_strlit("active");
            reveal_strlit("canceled");
            reveal_strlit("past_due");
            reveal_strlit("trialing");
            assert("active"@.len() == 6);
            assert("canceled"@[0] == 'c');
            assert("past_due"@[0] == 'p');
            assert("trialing"@[0] == 't');
            assert("canceled"@.len() == 8 && "past_due"@.len() == 8 && "trialing"@.len() == 8);
        }
        if str_eq(status, "active") {
            SubscriptionStatus::Active
        } else if str_eq(status, "canceled") {
            SubscriptionStatus::Canceled
        } else if str_eq(status, "past_due") {
            SubscriptionStatus::PastDue
        } else if str_eq(status, "trialing") {
            SubscriptionStatus::Trialing
        } else {
            SubscriptionStatus::Canceled
        }
    }
}

/// Per-tier usage limits; the maximum value stands for "unlimited".
#[derive(Debug, Clone)]
pub struct PricingConfig {
    pub free_applications_limit: i32,
    pub pro_applications_limit: i32,
    pub elite_applications_limit: i32,
    pub free_messages_limit: i32,
    pub pro_messages_limit: i32,
    pub elite_messages_limit: i32,
}

impl PricingConfig {
    /// The built-in pricing plan.
    pub fn default() -> (c: Self)
        ensures
            c.free_applications_limit == 5,
            c.pro_applications_limit == 50,
            c.elite_applications_limit == i32::MAX,
            c.free_messages_limit == 10,
            c.pro_messages_limit == 200,
            c.elite_messages_limit == i32::MAX,
    {
        PricingConfig {
            free_applications_limit: 5,
            pro_applications_limit: 50,
            elite_applications_limit: i32::MAX,
            free_messages_limit: 10,
            pro_messages_limit: 200,
            elite_messages_limit: i32::MAX,
        }
    }

    /// The application limit of a tier.
    pub fn get_application_limit(&self, tier: &SubscriptionTier) -> (l: i32)
        ensures
            tier is Free ==> l == self.free_applications_limit,
            tier is Pro ==> l == self.pro_applications_limit,
            tier is Elite ==> l == self.elite_applications_limit,
    {
        match tier {
            SubscriptionTier::Free => self.free_applications_limit,
            SubscriptionTier::Pro => self.pro_applications_limit,
            SubscriptionTier::Elite => self.elite_applications_limit,
        }
    }

    /// The message limit of a tier.
    pub fn get_message_limit(&self, tier: &SubscriptionTier) -> (l: i32)
        ensures
            tier is Free ==> l == self.free_messages_limit,
            tier is Pro ==> l == self.pro_messages_limit,
            tier is Elite ==> l == self.elite_messages_limit,
    {
        match tier {
            SubscriptionTier::Free => self.free_messages_limit,
            SubscriptionTier::Pro => self.pro_messages_limit,
            SubscriptionTier::Elite => self.elite_messages_limit,
        }
    }
}

} // verus!
