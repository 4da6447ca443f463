//! What holds of the integration across its messages.

use vstd::prelude::*;
use crate::primitives::AccountId;
use crate::third_party::events::{
    KycRequestInitiated, KycStatusUpdated, MonitoringAlert, PaymentCompleted, PaymentInitiated,
    ServiceRegistered, ServiceStatusChanged, ThirdPartyEvent,
};
use crate::third_party::model::{IntegrationView, MILLIS_PER_DAY};
use crate::third_party::types::{
    CallContext, Error, RequestId, RequestStatus, ServiceId, ServiceStatus, ServiceType,
};

verus! {

/// What every reachable state keeps: each service is stored under its own
/// id, between 1 and the service counter; each request is stored under its
/// own id, between 1 and the request counter, refers to a registered
/// service, and no id names both a KYC and a payment request; each
/// provider's service list holds exactly the services it provides, in
/// increasing order; and each KYC record is stored under its user and
/// refers to a registered service.
pub open spec fn consistent(s: IntegrationView) -> bool {
    &&& forall|id: ServiceId| #[trigger] s.services.contains_key(id)
        ==> 1 <= id <= s.service_counter && s.services[id].service_id == id
    &&& forall|id: RequestId| #[trigger] s.kyc_requests.contains_key(id)
        ==> 1 <= id <= s.request_counter && s.kyc_requests[id].request_id == id
            && s.services.contains_key(s.kyc_requests[id].service_id)
    &&& forall|id: RequestId| #[trigger] s.payment_requests.contains_key(id)
        ==> 1 <= id <= s.request_counter && s.payment_requests[id].request_id == id
            && s.services.contains_key(s.payment_requests[id].service_id)
    &&& forall|id: RequestId| !(#[trigger] s.kyc_requests.contains_key(id) && s.payment_requests.contains_key(id))
    &&& forall|p: Seq<u8>, id: ServiceId| #[trigger] s.services_of(p).contains(id)
        <==> (s.services.contains_key(id) && s.services[id].provider_account@ == p)
    &&& forall|p: Seq<u8>, i: int, j: int| 0 <= i < j < s.services_of(p).len()
        ==> #[trigger] s.services_of(p)[i] < #[trigger] s.services_of(p)[j]
    &&& forall|u: Seq<u8>| #[trigger] s.kyc_records.contains_key(u)
        ==> s.kyc_records[u].user@ == u && s.services.contains_key(s.kyc_records[u].provider_id)
}

/// A freshly deployed integration is consistent.
pub proof fn lemma_initial_consistent(ctx: CallContext)
    ensures
        consistent(IntegrationView::initial(ctx)),
{
    let s = IntegrationView::initial(ctx);
    assert forall|p: Seq<u8>, id: ServiceId| #[trigger] s.services_of(p).contains(id)
        <==> (s.services.contains_key(id) && s.services[id].provider_account@ == p) by {
        assert(s.services_of(p) =~= Seq::<ServiceId>::empty());
    }
}

/// Registering a service keeps the state consistent.
pub proof fn lemma_register_service_consistent(
    s: IntegrationView,
    ctx: CallContext,
    service_type: ServiceType,
    name: String,
    provider_account: AccountId,
    endpoint_url: String,
    api_version: String,
    fee_percentage: u16,
)
    requires
        consistent(s),
        s.may_register(ctx, fee_percentage) ==> s.service_counter < u32::MAX,
    ensures
        consistent(
            s.register_service(ctx, service_type, name, provider_account, endpoint_url, api_version, fee_percentage).0,
        ),
{
    let (n, r) = s.register_service(ctx, service_type, name, provider_account, endpoint_url, api_version, fee_percentage);
    if r is Ok {
        let id = n.service_counter;
        let pa = provider_account@;
        assert(!s.services.contains_key(id));
        assert forall|p: Seq<u8>, k: ServiceId| #[trigger] n.services_of(p).contains(k)
            <==> (n.services.contains_key(k) && n.services[k].provider_account@ == p) by {
            if p == pa {
                assert(n.services_of(p) == s.services_of(p).push(id));
                if n.services_of(p).contains(k) && k != id {
                    let i = choose|i: int| 0 <= i < n.services_of(p).len() && n.services_of(p)[i] == k;
                    assert(s.services_of(p)[i] == k);
                    assert(s.services_of(p).contains(k));
                }
                if n.services.contains_key(k) && n.services[k].provider_account@ == p {
                    if k == id {
                        assert(n.services_of(p)[s.services_of(p).len() as int] == k);
                    } else {
                        assert(s.services_of(p).contains(k));
                        let i = choose|i: int| 0 <= i < s.services_of(p).len() && s.services_of(p)[i] == k;
                        assert(n.services_of(p)[i] == k);
                    }
                }
            } else {
                assert(n.services_of(p) == s.services_of(p));
                if k == id {
                    assert(!s.services_of(p).contains(k));
                }
            }
        }
        assert forall|p: Seq<u8>, i: int, j: int| 0 <= i < j < n.services_of(p).len()
            implies #[trigger] n.services_of(p)[i] < #[trigger] n.services_of(p)[j] by {
            if p == pa {
                assert(n.services_of(p) == s.services_of(p).push(id));
                if j == s.services_of(p).len() {
                    assert(s.services_of(p).contains(s.services_of(p)[i]));
                } else {
                    assert(s.services_of(p)[i] < s.services_of(p)[j]);
                }
            } else {
                assert(n.services_of(p) == s.services_of(p));
            }
        }
    }
}

/// Changing a service's status keeps the state consistent.
pub proof fn lemma_update_service_status_consistent(s: IntegrationView, ctx: CallContext, service_id: ServiceId, new_status: ServiceStatus)
    requires
        consistent(s),
    ensures
        consistent(s.update_service_status(ctx, service_id, new_status).0),
{
    let (n, r) = s.update_service_status(ctx, service_id, new_status);
    if r is Ok {
        assert forall|p: Seq<u8>, k: ServiceId| #[trigger] n.services_of(p).contains(k)
            <==> (n.services.contains_key(k) && n.services[k].provider_account@ == p) by {
            assert(n.services_of(p) == s.services_of(p));
            assert(s.services_of(p).contains(k) <==> (s.services.contains_key(k) && s.services[k].provider_account@ == p));
        }
        assert forall|p: Seq<u8>, i: int, j: int| 0 <= i < j < n.services_of(p).len()
            implies #[trigger] n.services_of(p)[i] < #[trigger] n.services_of(p)[j] by {
            assert(n.services_of(p) == s.services_of(p));
        }
    }
}

/// Opening a KYC request keeps the state consistent.
pub proof fn lemma_initiate_kyc_request_consistent(s: IntegrationView, ctx: CallContext, service_id: ServiceId, user: AccountId, reference_id: String)
    requires
        consistent(s),
        s.may_initiate_kyc(ctx, service_id, user) ==> s.request_counter < u64::MAX,
    ensures
        consistent(s.initiate_kyc_request(ctx, service_id, user, reference_id).0),
{
    let (n, r) = s.initiate_kyc_request(ctx, service_id, user, reference_id);
    if r is Ok {
        assert(!s.kyc_requests.contains_key(n.request_counter));
        assert(!s.payment_requests.contains_key(n.request_counter));
        assert forall|p: Seq<u8>| #[trigger] n.services_of(p) == s.services_of(p) by {}
    }
}

/// Resolving or advancing a KYC request keeps the state consistent.
pub proof fn lemma_update_kyc_status_consistent(
    s: IntegrationView,
    ctx: CallContext,
    request_id: RequestId,
    status: RequestStatus,
    verification_level: u8,
    valid_for_days: u64,
)
    requires
        consistent(s),
    ensures
        consistent(s.update_kyc_status(ctx, request_id, status, verification_level, valid_for_days).0),
{
    let (n, r) = s.update_kyc_status(ctx, request_id, status, verification_level, valid_for_days);
    if r is Ok {
        assert forall|p: Seq<u8>| #[trigger] n.services_of(p) == s.services_of(p) by {}
    }
}

/// Opening a fiat payment keeps the state consistent.
pub proof fn lemma_initiate_fiat_payment_consistent(
    s: IntegrationView,
    ctx: CallContext,
    service_id: ServiceId,
    target_contract: AccountId,
    operation_type: u8,
    fiat_amount: u128,
    fiat_currency: String,
    payment_reference: String,
)
    requires
        consistent(s),
        s.check_service_active(service_id, ServiceType::PaymentGateway) is Ok ==> s.request_counter < u64::MAX,
    ensures
        consistent(
            s.initiate_fiat_payment(ctx, service_id, target_contract, operation_type, fiat_amount, fiat_currency, payment_reference).0,
        ),
{
    let (n, r) = s.initiate_fiat_payment(ctx, service_id, target_contract, operation_type, fiat_amount, fiat_currency, payment_reference);
    if r is Ok {
        assert(!s.kyc_requests.contains_key(n.request_counter));
        assert(!s.payment_requests.contains_key(n.request_counter));
        assert forall|p: Seq<u8>| #[trigger] n.services_of(p) == s.services_of(p) by {}
    }
}

/// Completing a payment keeps the state consistent.
pub proof fn lemma_complete_payment_consistent(s: IntegrationView, ctx: CallContext, request_id: RequestId, success: bool, equivalent_tokens: u128)
    requires
        consistent(s),
    ensures
        consistent(s.complete_payment(ctx, request_id, success, equivalent_tokens).0),
{
    let (n, r) = s.complete_payment(ctx, request_id, success, equivalent_tokens);
    if r is Ok {
        assert forall|p: Seq<u8>| #[trigger] n.services_of(p) == s.services_of(p) by {}
    }
}

/// Logging an alert keeps the state consistent.
pub proof fn lemma_log_alert_consistent(s: IntegrationView, ctx: CallContext, service_id: ServiceId, severity: u8, message: String)
    requires
        consistent(s),
    ensures
        consistent(s.log_alert(ctx, service_id, severity, message).0),
{
    let (n, r) = s.log_alert(ctx, service_id, severity, message);
    if r is Ok {
        assert forall|p: Seq<u8>| #[trigger] n.services_of(p) == s.services_of(p) by {}
    }
}


/// Whether `next` answers `s` as a message does: a refused message leaves
/// the state exactly as it was, an accepted one appends exactly one event.
pub open spec fn answered_as_a_message(s: IntegrationView, next: IntegrationView, accepted: bool) -> bool {
    if accepted {
        next.events.len() == s.events.len() + 1 && next.events.drop_last() == s.events
    } else {
        next == s
    }
}

/// Every message that is refused changes nothing, and every message that is
/// accepted emits exactly one event.
pub proof fn lemma_refusals_change_nothing(
    s: IntegrationView,
    ctx: CallContext,
    service_type: ServiceType,
    text1: String,
    text2: String,
    text3: String,
    account: AccountId,
    fee_percentage: u16,
    service_id: ServiceId,
    service_status: ServiceStatus,
    request_id: RequestId,
    request_status: RequestStatus,
    small: u8,
    days: u64,
    amount: u128,
    success: bool,
)
    ensures
        ({
            let (n, r) = s.register_service(ctx, service_type, text1, account, text2, text3, fee_percentage);
            answered_as_a_message(s, n, r is Ok)
        }),
        ({
            let (n, r) = s.update_service_status(ctx, service_id, service_status);
            answered_as_a_message(s, n, r is Ok)
        }),
        ({
            let (n, r) = s.initiate_kyc_request(ctx, service_id, account, text1);
            answered_as_a_message(s, n, r is Ok)
        }),
        ({
            let (n, r) = s.update_kyc_status(ctx, request_id, request_status, small, days);
            answered_as_a_message(s, n, r is Ok)
        }),
        ({
            let (n, r) = s.initiate_fiat_payment(ctx, service_id, account, small, amount, text1, text2);
            answered_as_a_message(s, n, r is Ok)
        }),
        ({
            let (n, r) = s.complete_payment(ctx, request_id, success, amount);
            answered_as_a_message(s, n, r is Ok)
        }),
        ({
            let (n, r) = s.log_alert(ctx, service_id, small, text1);
            answered_as_a_message(s, n, r is Ok)
        }),
{
    let (n, r) = s.register_service(ctx, service_type, text1, account, text2, text3, fee_percentage);
    if r is Ok { assert(n.events.drop_last() =~= s.events); }
    let (n, r) = s.update_service_status(ctx, service_id, service_status);
    if r is Ok { assert(n.events.drop_last() =~= s.events); }
    let (n, r) = s.initiate_kyc_request(ctx, service_id, account, text1);
    if r is Ok { assert(n.events.drop_last() =~= s.events); }
    let (n, r) = s.update_kyc_status(ctx, request_id, request_status, small, days);
    if r is Ok { assert(n.events.drop_last() =~= s.events); }
    let (n, r) = s.initiate_fiat_payment(ctx, service_id, account, small, amount, text1, text2);
    if r is Ok { assert(n.events.drop_last() =~= s.events); }
    let (n, r) = s.complete_payment(ctx, request_id, success, amount);
    if r is Ok { assert(n.events.drop_last() =~= s.events); }
    let (n, r) = s.log_alert(ctx, service_id, small, text1);
    if r is Ok { assert(n.events.drop_last() =~= s.events); }
}

/// Only the admin registers services, with a fee of at most 10000 basis
/// points; the new service gets the next id, is active, and reads back with
/// exactly the registered fields.
pub proof fn lemma_register_reads_back(
    s: IntegrationView,
    ctx: CallContext,
    service_type: ServiceType,
    name: String,
    provider_account: AccountId,
    endpoint_url: String,
    api_version: String,
    fee_percentage: u16,
)
    requires
        s.service_counter < u32::MAX,
    ensures
        ({
            let (n, r) = s.register_service(ctx, service_type, name, provider_account, endpoint_url, api_version, fee_percentage);
            r is Ok ==> {
                let id = r->Ok_0;
                &&& ctx.caller@ == s.admin@
                &&& fee_percentage <= 10000
                &&& id == s.service_counter + 1
                &&& n.services.contains_key(id)
                &&& n.services[id].service_id == id
                &&& n.services[id].service_type == service_type
                &&& n.services[id].name == name
                &&& n.services[id].provider_account == provider_account
                &&& n.services[id].endpoint_url == endpoint_url
                &&& n.services[id].api_version == api_version
                &&& n.services[id].status == ServiceStatus::Active
                &&& n.services[id].fee_percentage == fee_percentage
            }
        }),
        ctx.caller@ != s.admin@ ==> s.register_service(ctx, service_type, name, provider_account, endpoint_url, api_version, fee_percentage).1
            == Err::<ServiceId, Error>(Error::Unauthorized),
{
}

/// New KYC and payment requests get fresh ids from one shared counter: the
/// next id, which names no earlier request of either kind.
pub proof fn lemma_request_ids_are_fresh(
    s: IntegrationView,
    ctx: CallContext,
    service_id: ServiceId,
    account: AccountId,
    operation_type: u8,
    fiat_amount: u128,
    text1: String,
    text2: String,
)
    requires
        consistent(s),
        s.request_counter < u64::MAX,
    ensures
        ({
            let r = s.initiate_kyc_request(ctx, service_id, account, text1).1;
            r is Ok ==> r->Ok_0 == s.request_counter + 1
                && !s.kyc_requests.contains_key(r->Ok_0) && !s.payment_requests.contains_key(r->Ok_0)
        }),
        ({
            let r = s.initiate_fiat_payment(ctx, service_id, account, operation_type, fiat_amount, text1, text2).1;
            r is Ok ==> r->Ok_0 == s.request_counter + 1
                && !s.kyc_requests.contains_key(r->Ok_0) && !s.payment_requests.contains_key(r->Ok_0)
        }),
{
    let id = (s.request_counter + 1) as RequestId;
    assert(!s.kyc_requests.contains_key(id));
    assert(!s.payment_requests.contains_key(id));
}

/// A service that is not active takes no new KYC or payment requests.
pub proof fn lemma_inactive_service_takes_no_requests(
    s: IntegrationView,
    ctx: CallContext,
    service_id: ServiceId,
    account: AccountId,
    operation_type: u8,
    fiat_amount: u128,
    text1: String,
    text2: String,
)
    requires
        s.services.contains_key(service_id),
        s.services[service_id].status != ServiceStatus::Active,
    ensures
        s.initiate_kyc_request(ctx, service_id, account, text1).1 is Err,
        s.initiate_fiat_payment(ctx, service_id, account, operation_type, fiat_amount, text1, text2).1
            == Err::<RequestId, Error>(Error::ServiceInactive),
{
}

/// An approved or rejected KYC request is final: every later status update
/// of it is refused.
pub proof fn lemma_resolved_kyc_request_is_final(
    s: IntegrationView,
    ctx: CallContext,
    request_id: RequestId,
    status: RequestStatus,
    verification_level: u8,
    valid_for_days: u64,
    later_ctx: CallContext,
    later_status: RequestStatus,
    later_level: u8,
    later_days: u64,
)
    requires
        status == RequestStatus::Approved || status == RequestStatus::Rejected,
        s.update_kyc_status(ctx, request_id, status, verification_level, valid_for_days).1 is Ok,
    ensures
        s.update_kyc_status(ctx, request_id, status, verification_level, valid_for_days).0
            .update_kyc_status(later_ctx, request_id, later_status, later_level, later_days).1 is Err,
{
}

/// A payment is completed at most once: every later completion of it is
/// refused.
pub proof fn lemma_payment_completes_once(
    s: IntegrationView,
    ctx: CallContext,
    request_id: RequestId,
    success: bool,
    equivalent_tokens: u128,
    later_ctx: CallContext,
    later_success: bool,
    later_tokens: u128,
)
    requires
        s.complete_payment(ctx, request_id, success, equivalent_tokens).1 is Ok,
    ensures
        s.complete_payment(ctx, request_id, success, equivalent_tokens).0
            .complete_payment(later_ctx, request_id, later_success, later_tokens).1 is Err,
        s.complete_payment(ctx, request_id, success, equivalent_tokens).0.payment_requests[request_id].status
            == (if success { RequestStatus::Approved } else { RequestStatus::Failed }),
{
}

/// An approval at level `verification_level` for `valid_for_days` days
/// verifies the user at every level up to it, until the validity runs out,
/// and not after.
pub proof fn lemma_approval_verifies_user(
    s: IntegrationView,
    ctx: CallContext,
    request_id: RequestId,
    verification_level: u8,
    valid_for_days: u64,
    required_level: u8,
    now: u64,
)
    requires
        s.update_kyc_status(ctx, request_id, RequestStatus::Approved, verification_level, valid_for_days).1 is Ok,
        ctx.block_timestamp + valid_for_days * MILLIS_PER_DAY <= u64::MAX,
    ensures
        ({
            let n = s.update_kyc_status(ctx, request_id, RequestStatus::Approved, verification_level, valid_for_days).0;
            let user = s.kyc_requests[request_id].user;
            n.is_kyc_verified(now, user, required_level)
                <==> (required_level <= verification_level
                    && now < ctx.block_timestamp + valid_for_days * MILLIS_PER_DAY)
        }),
{
}


/// A registration announces itself: the event it emits names the new
/// service's id, its type, its name and its provider.
pub proof fn lemma_register_announces_service(
    s: IntegrationView,
    ctx: CallContext,
    service_type: ServiceType,
    name: String,
    provider_account: AccountId,
    endpoint_url: String,
    api_version: String,
    fee_percentage: u16,
)
    ensures
        ({
            let (n, r) = s.register_service(ctx, service_type, name, provider_account, endpoint_url, api_version, fee_percentage);
            r is Ok ==> {
                &&& n.events.last() == ThirdPartyEvent::ServiceRegistered(
                    ServiceRegistered { service_id: r->Ok_0, service_type, name, provider_account },
                )
                &&& n.services[r->Ok_0].registered_at == ctx.block_timestamp
                &&& n.services[r->Ok_0].fees_collected == 0
                &&& n.services_of(provider_account@).last() == r->Ok_0
                &&& n.kyc_requests == s.kyc_requests
                &&& n.payment_requests == s.payment_requests
                &&& n.kyc_records == s.kyc_records
            }
        }),
{
}

/// A status change sets exactly the requested status on exactly that
/// service, keeps every other field and every other service, and announces
/// the old and the new status.
pub proof fn lemma_status_change_sets_requested_status(
    s: IntegrationView,
    ctx: CallContext,
    service_id: ServiceId,
    new_status: ServiceStatus,
    other: ServiceId,
)
    ensures
        ({
            let (n, r) = s.update_service_status(ctx, service_id, new_status);
            r is Ok ==> {
                let before = s.services[service_id];
                let after = n.services[service_id];
                &&& ctx.caller@ == s.admin@ || ctx.caller@ == before.provider_account@
                &&& n.services.contains_key(service_id)
                &&& after.status == new_status
                &&& after.service_id == before.service_id
                &&& after.service_type == before.service_type
                &&& after.name == before.name
                &&& after.provider_account == before.provider_account
                &&& after.endpoint_url == before.endpoint_url
                &&& after.api_version == before.api_version
                &&& after.registered_at == before.registered_at
                &&& after.fees_collected == before.fees_collected
                &&& after.fee_percentage == before.fee_percentage
                &&& n.services.dom() == s.services.dom()
                &&& (other != service_id && s.services.contains_key(other) ==> n.services[other] == s.services[other])
                &&& n.events.last() == ThirdPartyEvent::ServiceStatusChanged(
                    ServiceStatusChanged { service_id, old_status: before.status, new_status },
                )
            }
        }),
{
}

/// A KYC request is opened for the `user` argument, not for the caller:
/// the stored request names that user, the given service and reference,
/// is pending, is stamped with the block time, and the event names the user.
pub proof fn lemma_kyc_request_is_for_the_user(
    s: IntegrationView,
    ctx: CallContext,
    service_id: ServiceId,
    user: AccountId,
    reference_id: String,
)
    ensures
        ({
            let (n, r) = s.initiate_kyc_request(ctx, service_id, user, reference_id);
            r is Ok ==> {
                let id = r->Ok_0;
                let q = n.kyc_requests[id];
                &&& n.kyc_requests.contains_key(id)
                &&& q.request_id == id
                &&& q.user == user
                &&& q.service_id == service_id
                &&& q.reference_id == reference_id
                &&& q.status == RequestStatus::Pending
                &&& q.initiated_at == ctx.block_timestamp
                &&& q.updated_at == ctx.block_timestamp
                &&& q.expiry_date is None
                &&& n.events.last() == ThirdPartyEvent::KycRequestInitiated(
                    KycRequestInitiated { request_id: id, user, service_id },
                )
                &&& n.services == s.services
                &&& n.kyc_records == s.kyc_records
                &&& n.payment_requests == s.payment_requests
            }
        }),
{
}

/// Approving a request records the verification for the request's user,
/// with the provider's service, the given level, the approval time and an
/// expiry `valid_for_days` days later; the request is stamped with the same
/// expiry; no other account's record changes.
pub proof fn lemma_approval_records_the_requests_user(
    s: IntegrationView,
    ctx: CallContext,
    request_id: RequestId,
    verification_level: u8,
    valid_for_days: u64,
    other: Seq<u8>,
)
    requires
        ctx.block_timestamp + valid_for_days * MILLIS_PER_DAY <= u64::MAX,
    ensures
        ({
            let (n, r) = s.update_kyc_status(ctx, request_id, RequestStatus::Approved, verification_level, valid_for_days);
            let q = s.kyc_requests[request_id];
            let expires = ctx.block_timestamp + valid_for_days * MILLIS_PER_DAY;
            r is Ok ==> {
                &&& n.kyc_records.contains_key(q.user@)
                &&& n.kyc_records[q.user@].user == q.user
                &&& n.kyc_records[q.user@].provider_id == q.service_id
                &&& n.kyc_records[q.user@].verification_level == verification_level
                &&& n.kyc_records[q.user@].verified_at == ctx.block_timestamp
                &&& n.kyc_records[q.user@].expires_at == expires
                &&& n.kyc_records[q.user@].is_active
                &&& n.kyc_requests[request_id].status == RequestStatus::Approved
                &&& n.kyc_requests[request_id].updated_at == ctx.block_timestamp
                &&& n.kyc_requests[request_id].expiry_date == Some(expires as u64)
                &&& n.kyc_requests[request_id].user == q.user
                &&& (other != q.user@ ==> n.kyc_records.contains_key(other) == s.kyc_records.contains_key(other)
                    && (s.kyc_records.contains_key(other) ==> n.kyc_records[other] == s.kyc_records[other]))
                &&& n.events.last() == ThirdPartyEvent::KycStatusUpdated(
                    KycStatusUpdated { request_id, user: q.user, status: RequestStatus::Approved, verification_level },
                )
            }
        }),
{
}

/// A status update other than an approval records no verification: it sets
/// the request's status and update time and leaves every KYC record as it
/// was.
pub proof fn lemma_non_approval_records_nothing(
    s: IntegrationView,
    ctx: CallContext,
    request_id: RequestId,
    status: RequestStatus,
    verification_level: u8,
    valid_for_days: u64,
)
    requires
        status != RequestStatus::Approved,
    ensures
        ({
            let (n, r) = s.update_kyc_status(ctx, request_id, status, verification_level, valid_for_days);
            r is Ok ==> {
                &&& n.kyc_records == s.kyc_records
                &&& n.kyc_requests[request_id].status == status
                &&& n.kyc_requests[request_id].updated_at == ctx.block_timestamp
                &&& n.kyc_requests[request_id].expiry_date == s.kyc_requests[request_id].expiry_date
                &&& n.kyc_requests[request_id].user == s.kyc_requests[request_id].user
            }
        }),
{
}

/// A KYC request opened for `user` and then approved by the service's
/// provider verifies `user` (not the caller who opened it) at every level up
/// to the approved one until the validity runs out; another caller's own
/// verification is unchanged.
pub proof fn lemma_opened_then_approved_verifies_the_user(
    s: IntegrationView,
    opener: CallContext,
    service_id: ServiceId,
    user: AccountId,
    reference_id: String,
    provider: CallContext,
    verification_level: u8,
    valid_for_days: u64,
    required_level: u8,
    now: u64,
)
    requires
        provider.block_timestamp + valid_for_days * MILLIS_PER_DAY <= u64::MAX,
    ensures
        ({
            let (n1, r1) = s.initiate_kyc_request(opener, service_id, user, reference_id);
            let (n2, r2) = n1.update_kyc_status(provider, r1->Ok_0, RequestStatus::Approved, verification_level, valid_for_days);
            r1 is Ok && r2 is Ok ==> {
                &&& n2.kyc_records.contains_key(user@)
                &&& n2.kyc_records[user@].user == user
                &&& (n2.is_kyc_verified(now, user, required_level) <==> (required_level <= verification_level
                    && now < provider.block_timestamp + valid_for_days * MILLIS_PER_DAY))
                &&& (opener.caller@ != user@ ==> n2.kyc_records.contains_key(opener.caller@)
                    == s.kyc_records.contains_key(opener.caller@))
            }
        }),
{
    let (n1, r1) = s.initiate_kyc_request(opener, service_id, user, reference_id);
    if r1 is Ok {
        lemma_kyc_request_is_for_the_user(s, opener, service_id, user, reference_id);
        lemma_approval_records_the_requests_user(n1, provider, r1->Ok_0, verification_level, valid_for_days, opener.caller@);
    }
}

/// A fiat payment is recorded with exactly the given arguments: paid by the
/// caller to the given target contract, with the given operation, amount,
/// currency and reference, pending, no tokens yet, stamped with the block
/// time; the event names the same request, payer, service, amount and
/// currency.
pub proof fn lemma_payment_records_its_arguments(
    s: IntegrationView,
    ctx: CallContext,
    service_id: ServiceId,
    target_contract: AccountId,
    operation_type: u8,
    fiat_amount: u128,
    fiat_currency: String,
    payment_reference: String,
)
    ensures
        ({
            let (n, r) = s.initiate_fiat_payment(ctx, service_id, target_contract, operation_type, fiat_amount, fiat_currency, payment_reference);
            r is Ok ==> {
                let id = r->Ok_0;
                let p = n.payment_requests[id];
                &&& n.payment_requests.contains_key(id)
                &&& p.request_id == id
                &&& p.payer == ctx.caller
                &&& p.service_id == service_id
                &&& p.target_contract == target_contract
                &&& p.operation_type == operation_type
                &&& p.fiat_amount == fiat_amount
                &&& p.fiat_currency == fiat_currency
                &&& p.payment_reference == payment_reference
                &&& p.equivalent_tokens == 0
                &&& p.status == RequestStatus::Pending
                &&& p.init_time == ctx.block_timestamp
                &&& p.complete_time is None
                &&& n.events.last() == ThirdPartyEvent::PaymentInitiated(
                    PaymentInitiated { request_id: id, payer: ctx.caller, service_id, fiat_amount, currency: fiat_currency },
                )
                &&& n.services == s.services
                &&& n.kyc_requests == s.kyc_requests
                &&& n.kyc_records == s.kyc_records
            }
        }),
{
}

/// Completing a payment records the outcome (approved on success, failed
/// otherwise), the token equivalence and the completion time, keeps every
/// other field of the request, and announces the same outcome.
pub proof fn lemma_completion_records_outcome(
    s: IntegrationView,
    ctx: CallContext,
    request_id: RequestId,
    success: bool,
    equivalent_tokens: u128,
)
    ensures
        ({
            let (n, r) = s.complete_payment(ctx, request_id, success, equivalent_tokens);
            r is Ok ==> {
                let before = s.payment_requests[request_id];
                let after = n.payment_requests[request_id];
                let status = if success { RequestStatus::Approved } else { RequestStatus::Failed };
                &&& ctx.caller@ == s.services[before.service_id].provider_account@
                &&& (before.status == RequestStatus::Pending || before.status == RequestStatus::Processing)
                &&& after.status == status
                &&& after.equivalent_tokens == equivalent_tokens
                &&& after.complete_time == Some(ctx.block_timestamp)
                &&& after.request_id == before.request_id
                &&& after.payer == before.payer
                &&& after.service_id == before.service_id
                &&& after.target_contract == before.target_contract
                &&& after.operation_type == before.operation_type
                &&& after.fiat_amount == before.fiat_amount
                &&& after.fiat_currency == before.fiat_currency
                &&& after.payment_reference == before.payment_reference
                &&& after.init_time == before.init_time
                &&& n.events.last() == ThirdPartyEvent::PaymentCompleted(
                    PaymentCompleted { request_id, status, equivalent_tokens },
                )
            }
        }),
{
}

/// An accepted alert is announced with its service, severity and message,
/// stamped with the block time of the alert itself; it changes nothing but
/// the event log.
pub proof fn lemma_alert_is_stamped_with_its_own_time(
    s: IntegrationView,
    ctx: CallContext,
    service_id: ServiceId,
    severity: u8,
    message: String,
)
    ensures
        ({
            let (n, r) = s.log_alert(ctx, service_id, severity, message);
            r is Ok ==> {
                &&& n.events.last() == ThirdPartyEvent::MonitoringAlert(
                    MonitoringAlert { service_id, severity, message, timestamp: ctx.block_timestamp },
                )
                &&& n.events.drop_last() == s.events
                &&& n.services == s.services
                &&& n.kyc_requests == s.kyc_requests
                &&& n.payment_requests == s.payment_requests
                &&& n.kyc_records == s.kyc_records
            }
        }),
        s.services.contains_key(service_id) && s.services[service_id].service_type != ServiceType::Monitoring
            ==> s.log_alert(ctx, service_id, severity, message).1 is Ok,
{
    let (n, r) = s.log_alert(ctx, service_id, severity, message);
    if r is Ok {
        assert(n.events.drop_last() =~= s.events);
    }
}

} // verus!
