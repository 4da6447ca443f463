//! The third-party integration contract: the executable state machine whose
//! every message is proved to do what `IntegrationView` says.

use vstd::prelude::*;
use std::collections::HashMap;
use crate::account_map::AccountMap;
use crate::primitives::AccountId;
use crate::third_party::events::{
    KycRequestInitiated, KycStatusUpdated, MonitoringAlert, PaymentCompleted, PaymentInitiated,
    ServiceRegistered, ServiceStatusChanged, ThirdPartyEvent,
};
use crate::third_party::laws::{
    consistent, lemma_complete_payment_consistent, lemma_initial_consistent,
    lemma_initiate_fiat_payment_consistent, lemma_initiate_kyc_request_consistent,
    lemma_log_alert_consistent, lemma_register_service_consistent, lemma_request_ids_are_fresh,
    lemma_update_kyc_status_consistent, lemma_update_service_status_consistent,
};
use crate::third_party::model::{IntegrationView, MAX_FEE_BASIS_POINTS, MILLIS_PER_DAY};
use crate::third_party::types::{
    CallContext, Error, KycRecord, KycRequest, PaymentRequest, RequestId, RequestStatus,
    ServiceConfig, ServiceId, ServiceStatus, ServiceType,
};

verus! {

broadcast use vstd::std_specs::hash::group_hash_axioms;

/// The integration contract's storage.
///
/// On chain the tables live in contract storage (ink!'s `Mapping`), whose
/// reads and writes go through the contract environment and need values that
/// implement SCALE `Encode`/`Decode`. Here the tables are held as values: the
/// id-keyed ones in `HashMap`s, the account-keyed ones in `AccountMap`s, so
/// that every message is a verified function from state to state.
pub struct ThirdPartyIntegration {
    /// Contract admin
    admin: AccountId,
    /// Registered services
    services: HashMap<ServiceId, ServiceConfig>,
    /// Number of services
    service_counter: ServiceId,
    /// Provider account to the services it provides
    provider_services: AccountMap<Vec<ServiceId>>,
    /// KYC records (user to record)
    kyc_records: AccountMap<KycRecord>,
    /// KYC requests
    kyc_requests: HashMap<RequestId, KycRequest>,
    /// Payment requests
    payment_requests: HashMap<RequestId, PaymentRequest>,
    /// Request counter
    request_counter: RequestId,
    /// Events emitted so far, oldest first
    events: Vec<ThirdPartyEvent>,
}

/// A copy of `ids`.
fn copy_ids(ids: &Vec<ServiceId>) -> (out: Vec<ServiceId>)
    ensures
        out@ == ids@,
{
    let mut out: Vec<ServiceId> = Vec::new();
    let mut i: usize = 0;
    while i < ids.len()
        invariant
            0 <= i <= ids@.len(),
            out@ == ids@.take(i as int),
        decreases ids@.len() - i,
    {
        out.push(ids[i]);
        assert(ids@.take(i + 1) =~= ids@.take(i as int).push(ids@[i as int]));
        i = i + 1;
    }
    assert(ids@.take(ids@.len() as int) =~= ids@);
    out
}

impl View for ThirdPartyIntegration {
    type V = IntegrationView;

    closed spec fn view(&self) -> IntegrationView {
        IntegrationView {
            admin: self.admin,
            services: self.services@,
            service_counter: self.service_counter,
            provider_services: self.provider_services.as_map().map_values(|ids: Vec<ServiceId>| ids@),
            kyc_records: self.kyc_records.as_map(),
            kyc_requests: self.kyc_requests@,
            payment_requests: self.payment_requests@,
            request_counter: self.request_counter,
            events: self.events@,
        }
    }
}

impl ThirdPartyIntegration {
    /// The account-keyed tables are well formed, and the state is
    /// consistent: ids are sequential and never reused, requests and records
    /// refer to registered services, and each provider's service list is
    /// exact.
    pub closed spec fn wf(&self) -> bool {
        &&& self.provider_services.wf()
        &&& self.kyc_records.wf()
        &&& consistent(self@)
    }

    /// Deploys the contract with `ctx.caller` as admin.
    pub fn new(ctx: &CallContext) -> (contract: Self)
        ensures
            contract.wf(),
            contract@ == IntegrationView::initial(*ctx),
    {
        let contract = ThirdPartyIntegration {
            admin: ctx.caller,
            services: HashMap::new(),
            service_counter: 0,
            provider_services: AccountMap::new(),
            kyc_records: AccountMap::new(),
            kyc_requests: HashMap::new(),
            payment_requests: HashMap::new(),
            request_counter: 0,
            events: Vec::new(),
        };
        assert(contract@.provider_services =~= Map::<Seq<u8>, Seq<ServiceId>>::empty());
        proof {
            lemma_initial_consistent(*ctx);
        }
        contract
    }

    /// Register a new third-party service (admin only).
    pub fn register_service(
        &mut self,
        ctx: &CallContext,
        service_type: ServiceType,
        name: String,
        provider_account: AccountId,
        endpoint_url: String,
        api_version: String,
        fee_percentage: u16,
    ) -> (result: Result<ServiceId, Error>)
        requires
            old(self).wf(),
            old(self)@.may_register(*ctx, fee_percentage) ==> old(self)@.service_counter < u32::MAX,
        ensures
            final(self).wf(),
            (final(self)@, result) == old(self)@.register_service(
                *ctx,
                service_type,
                name,
                provider_account,
                endpoint_url,
                api_version,
                fee_percentage,
            ),
    {
        proof {
            lemma_register_service_consistent(
                self@,
                *ctx,
                service_type,
                name,
                provider_account,
                endpoint_url,
                api_version,
                fee_percentage,
            );
        }
        if ctx.caller != self.admin {
            return Err(Error::Unauthorized);
        }
        if fee_percentage > MAX_FEE_BASIS_POINTS {
            return Err(Error::InvalidFeePercentage);
        }
        let ghost before = self@;
        self.service_counter = self.service_counter + 1;
        let service_id = self.service_counter;
        let config = ServiceConfig {
            service_id,
            service_type,
            name: name.clone(),
            provider_account,
            endpoint_url,
            api_version,
            status: ServiceStatus::Active,
            registered_at: ctx.block_timestamp,
            fees_collected: 0,
            fee_percentage,
        };
        self.services.insert(service_id, config);
        let mut provider_list = match self.provider_services.get(&provider_account) {
            Some(ids) => copy_ids(ids),
            None => Vec::new(),
        };
        provider_list.push(service_id);
        let ghost new_list = provider_list@;
        let ghost old_lists = self.provider_services.as_map();
        self.provider_services.insert(provider_account, provider_list);
        assert(new_list == before.services_of(provider_account@).push(service_id));
        assert(self@.provider_services =~= old_lists.map_values(|ids: Vec<ServiceId>| ids@).insert(
            provider_account@,
            new_list,
        ));
        self.events.push(
            ThirdPartyEvent::ServiceRegistered(
                ServiceRegistered { service_id, service_type, name, provider_account },
            ),
        );
        Ok(service_id)
    }

    /// The service `service_id`, or `ServiceNotFound`.
    fn get_service(&self, service_id: ServiceId) -> (result: Result<ServiceConfig, Error>)
        ensures
            match result {
                Ok(service) => self@.services.contains_key(service_id) && service == self@.services[service_id],
                Err(e) => !self@.services.contains_key(service_id) && e == Error::ServiceNotFound,
            },
    {
        match self.services.get(&service_id) {
            Some(service) => Ok(service.clone()),
            None => Err(Error::ServiceNotFound),
        }
    }

    /// Whether `service_id` names an active service of `expected_type`.
    fn ensure_service_active(&self, service_id: ServiceId, expected_type: ServiceType) -> (result: Result<(), Error>)
        ensures
            result == self@.check_service_active(service_id, expected_type),
    {
        let service = self.get_service(service_id)?;
        if service.status != ServiceStatus::Active {
            return Err(Error::ServiceInactive);
        }
        if service.service_type != expected_type {
            return Err(Error::ServiceNotFound);
        }
        Ok(())
    }

    /// Update service status (admin or provider).
    pub fn update_service_status(&mut self, ctx: &CallContext, service_id: ServiceId, new_status: ServiceStatus) -> (result: Result<(), Error>)
        requires
            old(self).wf(),
        ensures
            final(self).wf(),
            (final(self)@, result) == old(self)@.update_service_status(*ctx, service_id, new_status),
    {
        proof {
            lemma_update_service_status_consistent(self@, *ctx, service_id, new_status);
        }
        let mut service = match self.get_service(service_id) {
            Ok(service) => service,
            Err(e) => return Err(e),
        };
        if ctx.caller != self.admin && ctx.caller != service.provider_account {
            return Err(Error::Unauthorized);
        }
        let old_status = service.status;
        service.status = new_status;
        self.services.insert(service_id, service);
        self.events.push(
            ThirdPartyEvent::ServiceStatusChanged(
                ServiceStatusChanged { service_id, old_status, new_status },
            ),
        );
        Ok(())
    }

    /// Initiate a KYC request (user or admin).
    pub fn initiate_kyc_request(&mut self, ctx: &CallContext, service_id: ServiceId, user: AccountId, reference_id: String) -> (result: Result<RequestId, Error>)
        requires
            old(self).wf(),
            old(self)@.may_initiate_kyc(*ctx, service_id, user) ==> old(self)@.request_counter < u64::MAX,
        ensures
            final(self).wf(),
            (final(self)@, result) == old(self)@.initiate_kyc_request(*ctx, service_id, user, reference_id),
            result is Ok ==> !old(self)@.kyc_requests.contains_key(result->Ok_0)
                && !old(self)@.payment_requests.contains_key(result->Ok_0),
    {
        proof {
            lemma_initiate_kyc_request_consistent(self@, *ctx, service_id, user, reference_id);
            if self@.may_initiate_kyc(*ctx, service_id, user) {
                lemma_request_ids_are_fresh(self@, *ctx, service_id, user, 0, 0, reference_id, reference_id);
            }
        }
        if ctx.caller != user && ctx.caller != self.admin {
            return Err(Error::Unauthorized);
        }
        match self.ensure_service_active(service_id, ServiceType::KycProvider) {
            Ok(()) => {},
            Err(e) => return Err(e),
        }
        self.request_counter = self.request_counter + 1;
        let request_id = self.request_counter;
        let request = KycRequest {
            request_id,
            user,
            service_id,
            reference_id,
            status: RequestStatus::Pending,
            initiated_at: ctx.block_timestamp,
            updated_at: ctx.block_timestamp,
            expiry_date: None,
        };
        self.kyc_requests.insert(request_id, request);
        self.events.push(
            ThirdPartyEvent::KycRequestInitiated(KycRequestInitiated { request_id, user, service_id }),
        );
        Ok(request_id)
    }

    /// Update KYC status (provider only).
    pub fn update_kyc_status(
        &mut self,
        ctx: &CallContext,
        request_id: RequestId,
        status: RequestStatus,
        verification_level: u8,
        valid_for_days: u64,
    ) -> (result: Result<(), Error>)
        requires
            old(self).wf(),
            old(self)@.may_update_kyc(*ctx, request_id) && status == RequestStatus::Approved
                ==> ctx.block_timestamp + valid_for_days * MILLIS_PER_DAY <= u64::MAX,
        ensures
            final(self).wf(),
            (final(self)@, result) == old(self)@.update_kyc_status(
                *ctx,
                request_id,
                status,
                verification_level,
                valid_for_days,
            ),
    {
        proof {
            lemma_update_kyc_status_consistent(self@, *ctx, request_id, status, verification_level, valid_for_days);
        }
        let mut request = match self.kyc_requests.get(&request_id) {
            Some(request) => request.clone(),
            None => return Err(Error::RequestNotFound),
        };
        let service = match self.get_service(request.service_id) {
            Ok(service) => service,
            Err(e) => return Err(e),
        };
        if ctx.caller != service.provider_account {
            return Err(Error::Unauthorized);
        }
        // Only update active statuses
        if request.status == RequestStatus::Approved || request.status == RequestStatus::Rejected {
            return Err(Error::InvalidStatusTransition);
        }
        let timestamp = ctx.block_timestamp;
        request.status = status;
        request.updated_at = timestamp;
        if status == RequestStatus::Approved {
            proof {
                assert(valid_for_days * MILLIS_PER_DAY <= u64::MAX) by (nonlinear_arith)
                    requires
                        timestamp + valid_for_days * MILLIS_PER_DAY <= u64::MAX,
                        timestamp >= 0,
                ;
            }
            let expires_at = timestamp + valid_for_days * MILLIS_PER_DAY;
            request.expiry_date = Some(expires_at);
            let record = KycRecord {
                user: request.user,
                provider_id: request.service_id,
                verification_level,
                verified_at: timestamp,
                expires_at,
                is_active: true,
            };
            self.kyc_records.insert(request.user, record);
        }
        let user = request.user;
        self.kyc_requests.insert(request_id, request);
        self.events.push(
            ThirdPartyEvent::KycStatusUpdated(KycStatusUpdated { request_id, user, status, verification_level }),
        );
        Ok(())
    }

    /// Check if a user is KYC verified (view function for other contracts).
    pub fn is_kyc_verified(&self, ctx: &CallContext, user: AccountId, required_level: u8) -> (verified: bool)
        requires
            self.wf(),
        ensures
            verified == self@.is_kyc_verified(ctx.block_timestamp, user, required_level),
    {
        match self.kyc_records.get(&user) {
            Some(record) => record.is_active && record.verification_level >= required_level
                && record.expires_at > ctx.block_timestamp,
            None => false,
        }
    }

    /// Initiate fiat payment bridging.
    pub fn initiate_fiat_payment(
        &mut self,
        ctx: &CallContext,
        service_id: ServiceId,
        target_contract: AccountId,
        operation_type: u8,
        fiat_amount: u128,
        fiat_currency: String,
        payment_reference: String,
    ) -> (result: Result<RequestId, Error>)
        requires
            old(self).wf(),
            old(self)@.check_service_active(service_id, ServiceType::PaymentGateway) is Ok
                ==> old(self)@.request_counter < u64::MAX,
        ensures
            final(self).wf(),
            (final(self)@, result) == old(self)@.initiate_fiat_payment(
                *ctx,
                service_id,
                target_contract,
                operation_type,
                fiat_amount,
                fiat_currency,
                payment_reference,
            ),
            result is Ok ==> !old(self)@.kyc_requests.contains_key(result->Ok_0)
                && !old(self)@.payment_requests.contains_key(result->Ok_0),
    {
        proof {
            lemma_initiate_fiat_payment_consistent(
                self@,
                *ctx,
                service_id,
                target_contract,
                operation_type,
                fiat_amount,
                fiat_currency,
                payment_reference,
            );
            if self@.check_service_active(service_id, ServiceType::PaymentGateway) is Ok {
                lemma_request_ids_are_fresh(
                    self@,
                    *ctx,
                    service_id,
                    target_contract,
                    operation_type,
                    fiat_amount,
                    fiat_currency,
                    payment_reference,
                );
            }
        }
        let payer = ctx.caller;
        match self.ensure_service_active(service_id, ServiceType::PaymentGateway) {
            Ok(()) => {},
            Err(e) => return Err(e),
        }
        self.request_counter = self.request_counter + 1;
        let request_id = self.request_counter;
        let request = PaymentRequest {
            request_id,
            payer,
            service_id,
            target_contract,
            operation_type,
            fiat_amount,
            fiat_currency: fiat_currency.clone(),
            equivalent_tokens: 0,
            payment_reference,
            status: RequestStatus::Pending,
            init_time: ctx.block_timestamp,
            complete_time: None,
        };
        self.payment_requests.insert(request_id, request);
        self.events.push(
            ThirdPartyEvent::PaymentInitiated(
                PaymentInitiated { request_id, payer, service_id, fiat_amount, currency: fiat_currency },
            ),
        );
        Ok(request_id)
    }

    /// Complete fiat payment (provider only).
    pub fn complete_payment(&mut self, ctx: &CallContext, request_id: RequestId, success: bool, equivalent_tokens: u128) -> (result: Result<(), Error>)
        requires
            old(self).wf(),
        ensures
            final(self).wf(),
            (final(self)@, result) == old(self)@.complete_payment(*ctx, request_id, success, equivalent_tokens),
    {
        proof {
            lemma_complete_payment_consistent(self@, *ctx, request_id, success, equivalent_tokens);
        }
        let mut request = match self.payment_requests.get(&request_id) {
            Some(request) => request.clone(),
            None => return Err(Error::RequestNotFound),
        };
        let service = match self.get_service(request.service_id) {
            Ok(service) => service,
            Err(e) => return Err(e),
        };
        if ctx.caller != service.provider_account {
            return Err(Error::Unauthorized);
        }
        if request.status != RequestStatus::Pending && request.status != RequestStatus::Processing {
            return Err(Error::InvalidStatusTransition);
        }
        request.status = if success { RequestStatus::Approved } else { RequestStatus::Failed };
        request.equivalent_tokens = equivalent_tokens;
        request.complete_time = Some(ctx.block_timestamp);
        let status = request.status;
        self.payment_requests.insert(request_id, request);
        self.events.push(
            ThirdPartyEvent::PaymentCompleted(PaymentCompleted { request_id, status, equivalent_tokens }),
        );
        Ok(())
    }

    /// Log an alert from an external monitoring system.
    pub fn log_alert(&mut self, ctx: &CallContext, service_id: ServiceId, severity: u8, message: String) -> (result: Result<(), Error>)
        requires
            old(self).wf(),
        ensures
            final(self).wf(),
            (final(self)@, result) == old(self)@.log_alert(*ctx, service_id, severity, message),
    {
        proof {
            lemma_log_alert_consistent(self@, *ctx, service_id, severity, message);
        }
        let service = match self.get_service(service_id) {
            Ok(service) => service,
            Err(e) => return Err(e),
        };
        if ctx.caller != service.provider_account && service.service_type == ServiceType::Monitoring {
            return Err(Error::Unauthorized);
        }
        self.events.push(
            ThirdPartyEvent::MonitoringAlert(
                MonitoringAlert { service_id, severity, message, timestamp: ctx.block_timestamp },
            ),
        );
        Ok(())
    }

    /// The configuration of service `service_id`, if registered.
    pub fn get_service_config(&self, service_id: ServiceId) -> (config: Option<ServiceConfig>)
        ensures
            config == (if self@.services.contains_key(service_id) {
                Some(self@.services[service_id])
            } else {
                None
            }),
    {
        match self.services.get(&service_id) {
            Some(service) => Some(service.clone()),
            None => None,
        }
    }

    /// The KYC record of `user`, if any.
    pub fn get_kyc_record(&self, user: AccountId) -> (record: Option<KycRecord>)
        requires
            self.wf(),
        ensures
            record == (if self@.kyc_records.contains_key(user@) {
                Some(self@.kyc_records[user@])
            } else {
                None
            }),
    {
        match self.kyc_records.get(&user) {
            Some(record) => Some(*record),
            None => None,
        }
    }

    /// The payment request `request_id`, if any.
    pub fn get_payment_request(&self, request_id: RequestId) -> (request: Option<PaymentRequest>)
        ensures
            request == (if self@.payment_requests.contains_key(request_id) {
                Some(self@.payment_requests[request_id])
            } else {
                None
            }),
    {
        match self.payment_requests.get(&request_id) {
            Some(request) => Some(request.clone()),
            None => None,
        }
    }

    /// The events emitted so far, oldest first.
    pub fn emitted_events(&self) -> (events: &Vec<ThirdPartyEvent>)
        ensures
            events@ == self@.events,
    {
        &self.events
    }

    /// The admin account.
    pub fn admin(&self) -> (admin: AccountId)
        ensures
            admin == self@.admin,
    {
        self.admin
    }

    /// The id of the last registered service (zero before any).
    pub fn service_count(&self) -> (count: ServiceId)
        ensures
            count == self@.service_counter,
    {
        self.service_counter
    }

    /// The id of the last KYC or payment request (zero before any).
    pub fn request_count(&self) -> (count: RequestId)
        ensures
            count == self@.request_counter,
    {
        self.request_counter
    }

    /// Whether a status update by `ctx` of KYC request `request_id` passes
    /// every check, so that an approval would record a verification.
    pub fn kyc_update_permitted(&self, ctx: &CallContext, request_id: RequestId) -> (permitted: bool)
        ensures
            permitted == self@.may_update_kyc(*ctx, request_id),
    {
        match self.kyc_requests.get(&request_id) {
            Some(request) => match self.services.get(&request.service_id) {
                Some(service) => ctx.caller == service.provider_account
                    && request.status != RequestStatus::Approved
                    && request.status != RequestStatus::Rejected,
                None => false,
            },
            None => false,
        }
    }

    /// Whether `register_service` by `ctx` with `fee_percentage` passes its
    /// checks (the caller is the admin and the fee is at most 10000 basis
    /// points), so that it would take the next service id.
    pub fn registration_permitted(&self, ctx: &CallContext, fee_percentage: u16) -> (permitted: bool)
        ensures
            permitted == self@.may_register(*ctx, fee_percentage),
    {
        ctx.caller == self.admin && fee_percentage <= MAX_FEE_BASIS_POINTS
    }

    /// Whether `initiate_kyc_request` by `ctx` for `user` at `service_id`
    /// passes its checks, so that it would take the next request id.
    pub fn kyc_initiation_permitted(&self, ctx: &CallContext, service_id: ServiceId, user: AccountId) -> (permitted: bool)
        ensures
            permitted == self@.may_initiate_kyc(*ctx, service_id, user),
    {
        (ctx.caller == user || ctx.caller == self.admin)
            && self.ensure_service_active(service_id, ServiceType::KycProvider).is_ok()
    }

    /// Whether `service_id` is an active payment gateway, so that
    /// `initiate_fiat_payment` at it would take the next request id.
    pub fn payment_initiation_permitted(&self, service_id: ServiceId) -> (permitted: bool)
        ensures
            permitted == (self@.check_service_active(service_id, ServiceType::PaymentGateway) is Ok),
    {
        self.ensure_service_active(service_id, ServiceType::PaymentGateway).is_ok()
    }
}

} // verus!
