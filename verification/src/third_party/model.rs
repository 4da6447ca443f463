//! The integration's state as plain values, and what each message does to
//! it: the answer and the next state, for every input.

use vstd::prelude::*;
use crate::primitives::AccountId;
use crate::third_party::events::{
    KycRequestInitiated, KycStatusUpdated, MonitoringAlert, PaymentCompleted, PaymentInitiated,
    ServiceRegistered, ServiceStatusChanged, ThirdPartyEvent,
};
use crate::third_party::types::{
    CallContext, Error, KycRecord, KycRequest, PaymentRequest, RequestId, RequestStatus,
    ServiceConfig, ServiceId, ServiceStatus, ServiceType,
};

verus! {

/// Milliseconds in a day.
pub const MILLIS_PER_DAY: u64 = 86_400_000;

/// The largest fee, in basis points.
pub const MAX_FEE_BASIS_POINTS: u16 = 10000;

/// The integration's state.
pub struct IntegrationView {
    pub admin: AccountId,
    pub services: Map<ServiceId, ServiceConfig>,
    pub service_counter: ServiceId,
    pub provider_services: Map<Seq<u8>, Seq<ServiceId>>,
    pub kyc_records: Map<Seq<u8>, KycRecord>,
    pub kyc_requests: Map<RequestId, KycRequest>,
    pub payment_requests: Map<RequestId, PaymentRequest>,
    pub request_counter: RequestId,
    pub events: Seq<ThirdPartyEvent>,
}

impl IntegrationView {
    /// The state right after deployment by `ctx.caller`.
    pub open spec fn initial(ctx: CallContext) -> IntegrationView {
        IntegrationView {
            admin: ctx.caller,
            services: Map::empty(),
            service_counter: 0,
            provider_services: Map::empty(),
            kyc_records: Map::empty(),
            kyc_requests: Map::empty(),
            payment_requests: Map::empty(),
            request_counter: 0,
            events: Seq::empty(),
        }
    }

    /// The services registered for `provider`, in registration order.
    pub open spec fn services_of(self, provider: Seq<u8>) -> Seq<ServiceId> {
        if self.provider_services.contains_key(provider) {
            self.provider_services[provider]
        } else {
            Seq::empty()
        }
    }

    /// Whether `ctx` may register services: the admin with a fee of at most
    /// 10000 basis points.
    pub open spec fn may_register(self, ctx: CallContext, fee_percentage: u16) -> bool {
        ctx.caller@ == self.admin@ && fee_percentage <= MAX_FEE_BASIS_POINTS
    }

    /// Registering a service.
    pub open spec fn register_service(
        self,
        ctx: CallContext,
        service_type: ServiceType,
        name: String,
        provider_account: AccountId,
        endpoint_url: String,
        api_version: String,
        fee_percentage: u16,
    ) -> (IntegrationView, Result<ServiceId, Error>) {
        if ctx.caller@ != self.admin@ {
            (self, Err(Error::Unauthorized))
        } else if fee_percentage > MAX_FEE_BASIS_POINTS {
            (self, Err(Error::InvalidFeePercentage))
        } else {
            let id = (self.service_counter + 1) as ServiceId;
            let config = ServiceConfig {
                service_id: id,
                service_type,
                name,
                provider_account,
                endpoint_url,
                api_version,
                status: ServiceStatus::Active,
                registered_at: ctx.block_timestamp,
                fees_collected: 0,
                fee_percentage,
            };
            let event = ThirdPartyEvent::ServiceRegistered(
                ServiceRegistered { service_id: id, service_type, name, provider_account },
            );
            (
                IntegrationView {
                    services: self.services.insert(id, config),
                    service_counter: id,
                    provider_services: self.provider_services.insert(
                        provider_account@,
                        self.services_of(provider_account@).push(id),
                    ),
                    events: self.events.push(event),
                    ..self
                },
                Ok(id),
            )
        }
    }

    /// Changing a service's status: by the admin or the service's provider.
    pub open spec fn update_service_status(self, ctx: CallContext, service_id: ServiceId, new_status: ServiceStatus) -> (IntegrationView, Result<(), Error>) {
        if !self.services.contains_key(service_id) {
            (self, Err(Error::ServiceNotFound))
        } else {
            let service = self.services[service_id];
            if ctx.caller@ != self.admin@ && ctx.caller@ != service.provider_account@ {
                (self, Err(Error::Unauthorized))
            } else {
                let event = ThirdPartyEvent::ServiceStatusChanged(
                    ServiceStatusChanged { service_id, old_status: service.status, new_status },
                );
                (
                    IntegrationView {
                        services: self.services.insert(service_id, ServiceConfig { status: new_status, ..service }),
                        events: self.events.push(event),
                        ..self
                    },
                    Ok(()),
                )
            }
        }
    }

    /// Whether `service_id` names an active service of `expected_type`.
    pub open spec fn check_service_active(self, service_id: ServiceId, expected_type: ServiceType) -> Result<(), Error> {
        if !self.services.contains_key(service_id) {
            Err(Error::ServiceNotFound)
        } else if self.services[service_id].status != ServiceStatus::Active {
            Err(Error::ServiceInactive)
        } else if self.services[service_id].service_type != expected_type {
            Err(Error::ServiceNotFound)
        } else {
            Ok(())
        }
    }

    /// Whether a KYC request by `ctx` for `user` at `service_id` is accepted.
    pub open spec fn may_initiate_kyc(self, ctx: CallContext, service_id: ServiceId, user: AccountId) -> bool {
        (ctx.caller@ == user@ || ctx.caller@ == self.admin@)
            && self.check_service_active(service_id, ServiceType::KycProvider) is Ok
    }

    /// Opening a KYC request: by the user or the admin, at an active KYC provider.
    pub open spec fn initiate_kyc_request(self, ctx: CallContext, service_id: ServiceId, user: AccountId, reference_id: String) -> (IntegrationView, Result<RequestId, Error>) {
        if ctx.caller@ != user@ && ctx.caller@ != self.admin@ {
            (self, Err(Error::Unauthorized))
        } else if let Err(e) = self.check_service_active(service_id, ServiceType::KycProvider) {
            (self, Err(e))
        } else {
            let id = (self.request_counter + 1) as RequestId;
            let request = KycRequest {
                request_id: id,
                user,
                service_id,
                reference_id,
                status: RequestStatus::Pending,
                initiated_at: ctx.block_timestamp,
                updated_at: ctx.block_timestamp,
                expiry_date: None,
            };
            let event = ThirdPartyEvent::KycRequestInitiated(KycRequestInitiated { request_id: id, user, service_id });
            (
                IntegrationView {
                    kyc_requests: self.kyc_requests.insert(id, request),
                    request_counter: id,
                    events: self.events.push(event),
                    ..self
                },
                Ok(id),
            )
        }
    }

    /// Whether a status update by `ctx` of KYC request `request_id` is
    /// accepted: the request exists, its service exists, the caller is that
    /// service's provider, and the request is not yet approved or rejected.
    pub open spec fn may_update_kyc(self, ctx: CallContext, request_id: RequestId) -> bool {
        &&& self.kyc_requests.contains_key(request_id)
        &&& self.services.contains_key(self.kyc_requests[request_id].service_id)
        &&& ctx.caller@ == self.services[self.kyc_requests[request_id].service_id].provider_account@
        &&& self.kyc_requests[request_id].status != RequestStatus::Approved
        &&& self.kyc_requests[request_id].status != RequestStatus::Rejected
    }

    /// Resolving or advancing a KYC request: by the provider of its service,
    /// while it is neither approved nor rejected. An approval records the
    /// user's verification, valid for `valid_for_days` days.
    pub open spec fn update_kyc_status(
        self,
        ctx: CallContext,
        request_id: RequestId,
        status: RequestStatus,
        verification_level: u8,
        valid_for_days: u64,
    ) -> (IntegrationView, Result<(), Error>) {
        if !self.kyc_requests.contains_key(request_id) {
            (self, Err(Error::RequestNotFound))
        } else {
            let request = self.kyc_requests[request_id];
            if !self.services.contains_key(request.service_id) {
                (self, Err(Error::ServiceNotFound))
            } else if ctx.caller@ != self.services[request.service_id].provider_account@ {
                (self, Err(Error::Unauthorized))
            } else if request.status == RequestStatus::Approved || request.status == RequestStatus::Rejected {
                (self, Err(Error::InvalidStatusTransition))
            } else {
                let now = ctx.block_timestamp;
                let event = ThirdPartyEvent::KycStatusUpdated(
                    KycStatusUpdated { request_id, user: request.user, status, verification_level },
                );
                if status == RequestStatus::Approved {
                    let expires_at = (now + valid_for_days * MILLIS_PER_DAY) as u64;
                    let record = KycRecord {
                        user: request.user,
                        provider_id: request.service_id,
                        verification_level,
                        verified_at: now,
                        expires_at,
                        is_active: true,
                    };
                    (
                        IntegrationView {
                            kyc_requests: self.kyc_requests.insert(
                                request_id,
                                KycRequest { status, updated_at: now, expiry_date: Some(expires_at), ..request },
                            ),
                            kyc_records: self.kyc_records.insert(request.user@, record),
                            events: self.events.push(event),
                            ..self
                        },
                        Ok(()),
                    )
                } else {
                    (
                        IntegrationView {
                            kyc_requests: self.kyc_requests.insert(
                                request_id,
                                KycRequest { status, updated_at: now, ..request },
                            ),
                            events: self.events.push(event),
                            ..self
                        },
                        Ok(()),
                    )
                }
            }
        }
    }

    /// Whether `user` holds an active verification of at least
    /// `required_level` that has not expired at `now`.
    pub open spec fn is_kyc_verified(self, now: u64, user: AccountId, required_level: u8) -> bool {
        &&& self.kyc_records.contains_key(user@)
        &&& self.kyc_records[user@].is_active
        &&& self.kyc_records[user@].verification_level >= required_level
        &&& self.kyc_records[user@].expires_at > now
    }

    /// Opening a fiat payment by `ctx.caller` at an active payment gateway.
    pub open spec fn initiate_fiat_payment(
        self,
        ctx: CallContext,
        service_id: ServiceId,
        target_contract: AccountId,
        operation_type: u8,
        fiat_amount: u128,
        fiat_currency: String,
        payment_reference: String,
    ) -> (IntegrationView, Result<RequestId, Error>) {
        if let Err(e) = self.check_service_active(service_id, ServiceType::PaymentGateway) {
            (self, Err(e))
        } else {
            let id = (self.request_counter + 1) as RequestId;
            let request = PaymentRequest {
                request_id: id,
                payer: ctx.caller,
                service_id,
                target_contract,
                operation_type,
                fiat_amount,
                fiat_currency,
                equivalent_tokens: 0,
                payment_reference,
                status: RequestStatus::Pending,
                init_time: ctx.block_timestamp,
                complete_time: None,
            };
            let event = ThirdPartyEvent::PaymentInitiated(
                PaymentInitiated { request_id: id, payer: ctx.caller, service_id, fiat_amount, currency: fiat_currency },
            );
            (
                IntegrationView {
                    payment_requests: self.payment_requests.insert(id, request),
                    request_counter: id,
                    events: self.events.push(event),
                    ..self
                },
                Ok(id),
            )
        }
    }

    /// Completing a fiat payment: by the provider of its service, while it
    /// is pending or processing.
    pub open spec fn complete_payment(self, ctx: CallContext, request_id: RequestId, success: bool, equivalent_tokens: u128) -> (IntegrationView, Result<(), Error>) {
        if !self.payment_requests.contains_key(request_id) {
            (self, Err(Error::RequestNotFound))
        } else {
            let request = self.payment_requests[request_id];
            if !self.services.contains_key(request.service_id) {
                (self, Err(Error::ServiceNotFound))
            } else if ctx.caller@ != self.services[request.service_id].provider_account@ {
                (self, Err(Error::Unauthorized))
            } else if request.status != RequestStatus::Pending && request.status != RequestStatus::Processing {
                (self, Err(Error::InvalidStatusTransition))
            } else {
                let status = if success { RequestStatus::Approved } else { RequestStatus::Failed };
                let event = ThirdPartyEvent::PaymentCompleted(
                    PaymentCompleted { request_id, status, equivalent_tokens },
                );
                (
                    IntegrationView {
                        payment_requests: self.payment_requests.insert(
                            request_id,
                            PaymentRequest {
                                status,
                                equivalent_tokens,
                                complete_time: Some(ctx.block_timestamp),
                                ..request
                            },
                        ),
                        events: self.events.push(event),
                        ..self
                    },
                    Ok(()),
                )
            }
        }
    }

    /// Logging an alert for a service: a monitoring service's alerts only
    /// come from its provider.
    pub open spec fn log_alert(self, ctx: CallContext, service_id: ServiceId, severity: u8, message: String) -> (IntegrationView, Result<(), Error>) {
        if !self.services.contains_key(service_id) {
            (self, Err(Error::ServiceNotFound))
        } else if ctx.caller@ != self.services[service_id].provider_account@
            && self.services[service_id].service_type == ServiceType::Monitoring {
            (self, Err(Error::Unauthorized))
        } else {
            let event = ThirdPartyEvent::MonitoringAlert(
                MonitoringAlert { service_id, severity, message, timestamp: ctx.block_timestamp },
            );
            (IntegrationView { events: self.events.push(event), ..self }, Ok(()))
        }
    }
}

} // verus!
