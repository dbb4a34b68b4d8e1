use vstd::prelude::*;

use crate::account::AccountId;
use crate::bounds::MAX_ENDPOINT_URL_LEN;
use crate::bounds::MAX_UNIT_TYPE_LEN;
use crate::bounds::capabilities_wf;
use crate::bounds::check_capabilities;
use crate::bounds::check_service_name;
use crate::bounds::service_name_wf;

verus! {

/// A provider's fee structure: a flat fee, a fee per unit of work, or a
/// negotiable range.
#[derive(Debug)]
pub enum PricingModel {
    Fixed { amount: u64, token: AccountId },
    PerUnit { amount_per_unit: u64, token: AccountId, unit_type: String },
    Negotiable { min_amount: u64, max_amount: u64, token: AccountId },
}

impl PricingModel {
    /// A pricing model is well-formed when its numeric bounds are ordered
    /// and its unit description fits the size bound.
    pub open spec fn wf(self) -> bool {
        match self {
            PricingModel::Fixed { .. } => true,
            PricingModel::PerUnit { unit_type, .. } => unit_type@.len() <= MAX_UNIT_TYPE_LEN,
            PricingModel::Negotiable { min_amount, max_amount, .. } => min_amount <= max_amount,
        }
    }

    /// Decides `wf` on a concrete pricing model.
    pub fn check(&self) -> (ok: bool)
        ensures
            ok == self.wf(),
    {
        match self {
            PricingModel::Fixed { .. } => true,
            PricingModel::PerUnit { unit_type, .. } => {
                unit_type.as_str().unicode_len() <= MAX_UNIT_TYPE_LEN
            },
            PricingModel::Negotiable { min_amount, max_amount, .. } => min_amount <= max_amount,
        }
    }
}

/// A provider profile. Write-once in this core: no operation updates or
/// removes a registration once it is created.
#[derive(Debug)]
pub struct ServiceRegistration {
    /// The identity that registered the service; set at creation, never
    /// changed.
    pub owner: AccountId,
    pub service_name: String,
    pub capabilities: Vec<String>,
    pub pricing_model: PricingModel,
    pub endpoint_url: String,
    /// Carried in the record but not mutated by any operation in this core.
    pub reputation_score: u32,
    /// Carried in the record but not mutated by any operation in this core.
    pub total_tasks_completed: u32,
    pub created_at: i64,
    pub updated_at: i64,
}

impl ServiceRegistration {
    /// The bounds every stored registration satisfies.
    pub open spec fn wf(self) -> bool {
        &&& service_name_wf(self.service_name@)
        &&& capabilities_wf(self.capabilities@)
        &&& self.pricing_model.wf()
        &&& self.endpoint_url@.len() <= MAX_ENDPOINT_URL_LEN
    }
}

/// The registration inputs a caller must supply to create a service record:
/// `register_service` accepts exactly these and rejects everything else.
pub open spec fn register_inputs_wf(
    service_name: Seq<char>,
    capabilities: Seq<String>,
    pricing_model: PricingModel,
    endpoint_url: Seq<char>,
) -> bool {
    &&& service_name_wf(service_name)
    &&& capabilities_wf(capabilities)
    &&& pricing_model.wf()
    &&& endpoint_url.len() <= MAX_ENDPOINT_URL_LEN
}

/// Decides `register_inputs_wf` on concrete registration inputs.
pub fn check_register_inputs(
    service_name: &String,
    capabilities: &Vec<String>,
    pricing_model: &PricingModel,
    endpoint_url: &String,
) -> (ok: bool)
    ensures
        ok == register_inputs_wf(service_name@, capabilities@, *pricing_model, endpoint_url@),
{
    check_service_name(service_name) && check_capabilities(capabilities)
        && pricing_model.check() && endpoint_url.as_str().unicode_len() <= MAX_ENDPOINT_URL_LEN
}

} // verus!
