//! The data the integration stores, the errors it answers with, and the
//! context of a call.

use vstd::prelude::*;
use crate::primitives::AccountId;

verus! {

/// Identifies a registered service; the first is 1.
pub type ServiceId = u32;

/// Identifies a KYC or payment request; the two kinds share one counter,
/// and the first is 1.
pub type RequestId = u64;

/// The caller and the block time of one message call.
#[derive(Debug, Clone, Copy)]
pub struct CallContext {
    pub caller: AccountId,
    pub block_timestamp: u64,
}

/// What a registered service provides.
#[derive(Debug, Clone, Copy, PartialEq, Eq, Structural)]
pub enum ServiceType {
    KycProvider,
    PaymentGateway,
    Monitoring,
    Other,
}

/// Whether a service takes new requests.
#[derive(Debug, Clone, Copy, PartialEq, Eq, Structural)]
pub enum ServiceStatus {
    Active,
    Inactive,
    Suspended,
}

/// Where a KYC or payment request stands.
#[derive(Debug, Clone, Copy, PartialEq, Eq, Structural)]
pub enum RequestStatus {
    Pending,
    Processing,
    Approved,
    Rejected,
    Failed,
}

/// Why a message was refused.
#[derive(Debug, Clone, Copy, PartialEq, Eq, Structural)]
pub enum Error {
    /// The caller may not perform this message.
    Unauthorized,
    /// No such service, or it is not of the kind the message needs.
    ServiceNotFound,
    /// The service is not active.
    ServiceInactive,
    /// A fee above 10000 basis points.
    InvalidFeePercentage,
    /// No such request.
    RequestNotFound,
    /// The request has already been resolved.
    InvalidStatusTransition,
}

/// A registered service.
#[derive(Debug, PartialEq, Eq)]
pub struct ServiceConfig {
    pub service_id: ServiceId,
    pub service_type: ServiceType,
    pub name: String,
    pub provider_account: AccountId,
    pub endpoint_url: String,
    pub api_version: String,
    pub status: ServiceStatus,
    pub registered_at: u64,
    pub fees_collected: u128,
    pub fee_percentage: u16,
}

impl Clone for ServiceConfig {
    fn clone(&self) -> (r: Self)
        ensures
            r == *self,
    {
        ServiceConfig {
            service_id: self.service_id,
            service_type: self.service_type,
            name: self.name.clone(),
            provider_account: self.provider_account,
            endpoint_url: self.endpoint_url.clone(),
            api_version: self.api_version.clone(),
            status: self.status,
            registered_at: self.registered_at,
            fees_collected: self.fees_collected,
            fee_percentage: self.fee_percentage,
        }
    }
}

/// The verified identity of a user.
#[derive(Debug, Clone, Copy, PartialEq, Eq)]
pub struct KycRecord {
    pub user: AccountId,
    pub provider_id: ServiceId,
    pub verification_level: u8,
    pub verified_at: u64,
    pub expires_at: u64,
    pub is_active: bool,
}

/// A request to a KYC provider to verify a user.
#[derive(Debug, PartialEq, Eq)]
pub struct KycRequest {
    pub request_id: RequestId,
    pub user: AccountId,
    pub service_id: ServiceId,
    pub reference_id: String,
    pub status: RequestStatus,
    pub initiated_at: u64,
    pub updated_at: u64,
    pub expiry_date: Option<u64>,
}

impl Clone for KycRequest {
    fn clone(&self) -> (r: Self)
        ensures
            r == *self,
    {
        KycRequest {
            request_id: self.request_id,
            user: self.user,
            service_id: self.service_id,
            reference_id: self.reference_id.clone(),
            status: self.status,
            initiated_at: self.initiated_at,
            updated_at: self.updated_at,
            expiry_date: self.expiry_date,
        }
    }
}

/// A fiat payment bridged through a payment gateway.
#[derive(Debug, PartialEq, Eq)]
pub struct PaymentRequest {
    pub request_id: RequestId,
    pub payer: AccountId,
    pub service_id: ServiceId,
    pub target_contract: AccountId,
    pub operation_type: u8,
    pub fiat_amount: u128,
    pub fiat_currency: String,
    pub equivalent_tokens: u128,
    pub payment_reference: String,
    pub status: RequestStatus,
    pub init_time: u64,
    pub complete_time: Option<u64>,
}

impl Clone for PaymentRequest {
    fn clone(&self) -> (r: Self)
        ensures
            r == *self,
    {
        PaymentRequest {
            request_id: self.request_id,
            payer: self.payer,
            service_id: self.service_id,
            target_contract: self.target_contract,
            operation_type: self.operation_type,
            fiat_amount: self.fiat_amount,
            fiat_currency: self.fiat_currency.clone(),
            equivalent_tokens: self.equivalent_tokens,
            payment_reference: self.payment_reference.clone(),
            status: self.status,
            init_time: self.init_time,
            complete_time: self.complete_time,
        }
    }
}

} // verus!
