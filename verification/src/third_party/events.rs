//! The events the integration emits, in the order it emits them.

use vstd::prelude::*;
use crate::primitives::AccountId;
use crate::third_party::types::{RequestId, RequestStatus, ServiceId, ServiceStatus, ServiceType};

verus! {

#[derive(Debug, PartialEq, Eq)]
pub struct ServiceRegistered {
    pub service_id: ServiceId,
    pub service_type: ServiceType,
    pub name: String,
    pub provider_account: AccountId,
}

#[derive(Debug, Clone, Copy, PartialEq, Eq)]
pub struct ServiceStatusChanged {
    pub service_id: ServiceId,
    pub old_status: ServiceStatus,
    pub new_status: ServiceStatus,
}

#[derive(Debug, Clone, Copy, PartialEq, Eq)]
pub struct KycRequestInitiated {
    pub request_id: RequestId,
    pub user: AccountId,
    pub service_id: ServiceId,
}

#[derive(Debug, Clone, Copy, PartialEq, Eq)]
pub struct KycStatusUpdated {
    pub request_id: RequestId,
    pub user: AccountId,
    pub status: RequestStatus,
    pub verification_level: u8,
}

#[derive(Debug, PartialEq, Eq)]
pub struct PaymentInitiated {
    pub request_id: RequestId,
    pub payer: AccountId,
    pub service_id: ServiceId,
    pub fiat_amount: u128,
    pub currency: String,
}

#[derive(Debug, Clone, Copy, PartialEq, Eq)]
pub struct PaymentCompleted {
    pub request_id: RequestId,
    pub status: RequestStatus,
    pub equivalent_tokens: u128,
}

#[derive(Debug, PartialEq, Eq)]
pub struct MonitoringAlert {
    pub service_id: ServiceId,
    pub severity: u8,
    pub message: String,
    pub timestamp: u64,
}

/// One emitted event.
#[derive(Debug, PartialEq, Eq)]
pub enum ThirdPartyEvent {
    ServiceRegistered(ServiceRegistered),
    ServiceStatusChanged(ServiceStatusChanged),
    KycRequestInitiated(KycRequestInitiated),
    KycStatusUpdated(KycStatusUpdated),
    PaymentInitiated(PaymentInitiated),
    PaymentCompleted(PaymentCompleted),
    MonitoringAlert(MonitoringAlert),
}

} // verus!
