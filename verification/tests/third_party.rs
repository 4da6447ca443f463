use propchain::primitives::AccountId;
use propchain::third_party::events::{KycStatusUpdated, ServiceStatusChanged, ThirdPartyEvent};
use propchain::third_party::integration::ThirdPartyIntegration;
use propchain::third_party::types::{
    CallContext, Error, RequestStatus, ServiceStatus, ServiceType,
};

struct Accounts {
    alice: AccountId,
    bob: AccountId,
    charlie: AccountId,
    eve: AccountId,
}

fn default_accounts() -> Accounts {
    Accounts {
        alice: AccountId::from([0x01; 32]),
        bob: AccountId::from([0x02; 32]),
        charlie: AccountId::from([0x03; 32]),
        eve: AccountId::from([0x05; 32]),
    }
}

fn as_caller(caller: AccountId) -> CallContext {
    CallContext { caller, block_timestamp: 0 }
}

fn at(caller: AccountId, block_timestamp: u64) -> CallContext {
    CallContext { caller, block_timestamp }
}

fn setup() -> ThirdPartyIntegration {
    ThirdPartyIntegration::new(&as_caller(default_accounts().alice))
}

fn register_kyc_provider(contract: &mut ThirdPartyIntegration, provider: AccountId) -> u32 {
    contract
        .register_service(
            &as_caller(default_accounts().alice),
            ServiceType::KycProvider,
            "KYC Partner".into(),
            provider,
            "https://kyc.example".into(),
            "v1".into(),
            100,
        )
        .unwrap()
}

#[test]
fn test_register_service_admin_only_and_validates_fee() {
    let accounts = default_accounts();
    let mut contract = setup();

    // Non-admin registration is rejected
    assert_eq!(
        contract.register_service(
            &as_caller(accounts.bob),
            ServiceType::KycProvider,
            "Rogue".into(),
            accounts.bob,
            "https://evil.example".into(),
            "v1".into(),
            0,
        ),
        Err(Error::Unauthorized)
    );

    // Admin can register and the config is queryable
    let service_id = register_kyc_provider(&mut contract, accounts.charlie);
    assert_eq!(service_id, 1);
    let config = contract.get_service_config(service_id).unwrap();
    assert_eq!(config.service_type, ServiceType::KycProvider);
    assert_eq!(config.provider_account, accounts.charlie);
    assert_eq!(config.status, ServiceStatus::Active);
    assert_eq!(config.fee_percentage, 100);

    // Fee percentage above the 10000 bps cap is rejected
    assert_eq!(
        contract.register_service(
            &as_caller(accounts.alice),
            ServiceType::Other,
            "Greedy".into(),
            accounts.bob,
            "https://x.example".into(),
            "v1".into(),
            10_001,
        ),
        Err(Error::InvalidFeePercentage)
    );
}

#[test]
fn test_update_service_status_admin_or_provider_only() {
    let accounts = default_accounts();
    let mut contract = setup();
    let service_id = register_kyc_provider(&mut contract, accounts.charlie);

    // A random account may not change the status
    assert_eq!(
        contract.update_service_status(&as_caller(accounts.eve), service_id, ServiceStatus::Suspended),
        Err(Error::Unauthorized)
    );

    // The provider itself can suspend its own service
    assert_eq!(
        contract.update_service_status(&as_caller(accounts.charlie), service_id, ServiceStatus::Suspended),
        Ok(())
    );
    let suspended = contract.get_service_config(service_id).unwrap();
    assert_eq!(suspended.status, ServiceStatus::Suspended);

    // Requests against a suspended service are rejected
    assert_eq!(
        contract.initiate_kyc_request(&as_caller(accounts.bob), service_id, accounts.bob, "ref-1".into()),
        Err(Error::ServiceInactive)
    );
}

#[test]
fn test_kyc_flow_updates_record_and_rejects_double_update() {
    let accounts = default_accounts();
    let mut contract = setup();
    let service_id = register_kyc_provider(&mut contract, accounts.charlie);

    // Only the user itself (or admin) may initiate a request
    assert_eq!(
        contract.initiate_kyc_request(&as_caller(accounts.eve), service_id, accounts.bob, "ref-2".into()),
        Err(Error::Unauthorized)
    );

    let request_id = contract
        .initiate_kyc_request(&as_caller(accounts.bob), service_id, accounts.bob, "ref-3".into())
        .unwrap();

    // Only the provider may resolve the request
    assert_eq!(
        contract.update_kyc_status(&as_caller(accounts.eve), request_id, RequestStatus::Approved, 3, 30),
        Err(Error::Unauthorized)
    );

    assert_eq!(
        contract.update_kyc_status(&as_caller(accounts.charlie), request_id, RequestStatus::Approved, 3, 30),
        Ok(())
    );

    // Verification level gates hold; unknown users are unverified
    assert!(contract.is_kyc_verified(&as_caller(accounts.charlie), accounts.bob, 3));
    assert!(!contract.is_kyc_verified(&as_caller(accounts.charlie), accounts.bob, 4));
    assert!(!contract.is_kyc_verified(&as_caller(accounts.charlie), accounts.eve, 1));

    // An already-resolved request cannot be updated again
    assert_eq!(
        contract.update_kyc_status(&as_caller(accounts.charlie), request_id, RequestStatus::Rejected, 0, 0),
        Err(Error::InvalidStatusTransition)
    );
}

#[test]
fn test_payment_flow_completes_by_provider() {
    let accounts = default_accounts();
    let mut contract = setup();
    let payment_service = contract
        .register_service(
            &as_caller(accounts.alice),
            ServiceType::PaymentGateway,
            "Fiat Bridge".into(),
            accounts.charlie,
            "https://pay.example".into(),
            "v1".into(),
            50,
        )
        .unwrap();

    let request_id = contract
        .initiate_fiat_payment(
            &as_caller(accounts.bob),
            payment_service,
            accounts.alice,
            1,
            1_000,
            "USD".into(),
            "invoice-42".into(),
        )
        .unwrap();

    // A non-provider cannot complete the payment
    assert_eq!(
        contract.complete_payment(&as_caller(accounts.eve), request_id, true, 500),
        Err(Error::Unauthorized)
    );

    // The provider completes it with the token equivalence recorded
    assert_eq!(contract.complete_payment(&as_caller(accounts.charlie), request_id, true, 500), Ok(()));
    let completed = contract.get_payment_request(request_id).unwrap();
    assert_eq!(completed.status, RequestStatus::Approved);
    assert_eq!(completed.equivalent_tokens, 500);
}

#[test]
fn kyc_verification_expires_after_the_validity_window() {
    let accounts = default_accounts();
    let mut contract = setup();
    let service_id = register_kyc_provider(&mut contract, accounts.charlie);
    let request_id = contract
        .initiate_kyc_request(&at(accounts.bob, 1_000), service_id, accounts.bob, "ref".into())
        .unwrap();
    assert_eq!(
        contract.update_kyc_status(&at(accounts.charlie, 2_000), request_id, RequestStatus::Approved, 2, 1),
        Ok(())
    );
    let record = contract.get_kyc_record(accounts.bob).unwrap();
    assert_eq!(record.expires_at, 2_000 + 86_400_000);
    assert_eq!(record.verified_at, 2_000);
    assert_eq!(record.provider_id, service_id);
    assert!(record.is_active);
    assert!(contract.is_kyc_verified(&at(accounts.eve, 86_401_999), accounts.bob, 2));
    assert!(!contract.is_kyc_verified(&at(accounts.eve, 86_402_000), accounts.bob, 2));
    assert!(contract.is_kyc_verified(&at(accounts.eve, 5_000), accounts.bob, 0));
}

#[test]
fn rejected_kyc_request_records_nothing_and_is_final() {
    let accounts = default_accounts();
    let mut contract = setup();
    let service_id = register_kyc_provider(&mut contract, accounts.charlie);
    let request_id = contract
        .initiate_kyc_request(&as_caller(accounts.alice), service_id, accounts.bob, "ref".into())
        .unwrap();
    assert_eq!(
        contract.update_kyc_status(&as_caller(accounts.charlie), request_id, RequestStatus::Processing, 1, 1),
        Ok(())
    );
    assert_eq!(contract.get_kyc_record(accounts.bob), None);
    assert_eq!(
        contract.update_kyc_status(&as_caller(accounts.charlie), request_id, RequestStatus::Rejected, 1, 1),
        Ok(())
    );
    assert_eq!(contract.get_kyc_record(accounts.bob), None);
    assert_eq!(
        contract.update_kyc_status(&as_caller(accounts.charlie), request_id, RequestStatus::Approved, 1, 1),
        Err(Error::InvalidStatusTransition)
    );
    assert!(!contract.is_kyc_verified(&as_caller(accounts.alice), accounts.bob, 0));
}

#[test]
fn unknown_requests_and_services_are_reported() {
    let accounts = default_accounts();
    let mut contract = setup();
    assert_eq!(
        contract.update_kyc_status(&as_caller(accounts.charlie), 7, RequestStatus::Approved, 1, 1),
        Err(Error::RequestNotFound)
    );
    assert_eq!(
        contract.complete_payment(&as_caller(accounts.charlie), 7, true, 1),
        Err(Error::RequestNotFound)
    );
    assert_eq!(
        contract.update_service_status(&as_caller(accounts.alice), 3, ServiceStatus::Inactive),
        Err(Error::ServiceNotFound)
    );
    assert_eq!(
        contract.log_alert(&as_caller(accounts.alice), 3, 1, "down".into()),
        Err(Error::ServiceNotFound)
    );
    assert_eq!(
        contract.initiate_kyc_request(&as_caller(accounts.bob), 3, accounts.bob, "r".into()),
        Err(Error::ServiceNotFound)
    );
    assert_eq!(contract.get_service_config(3), None);
    assert_eq!(contract.get_payment_request(7), None);
    assert_eq!(contract.get_kyc_record(accounts.bob), None);
}

#[test]
fn wrong_service_type_is_reported_as_not_found() {
    let accounts = default_accounts();
    let mut contract = setup();
    let kyc = register_kyc_provider(&mut contract, accounts.charlie);
    assert_eq!(
        contract.initiate_fiat_payment(&as_caller(accounts.bob), kyc, accounts.alice, 1, 10, "EUR".into(), "x".into()),
        Err(Error::ServiceNotFound)
    );
}

#[test]
fn kyc_and_payment_requests_share_one_counter() {
    let accounts = default_accounts();
    let mut contract = setup();
    let kyc = register_kyc_provider(&mut contract, accounts.charlie);
    let pay = contract
        .register_service(
            &as_caller(accounts.alice),
            ServiceType::PaymentGateway,
            "Bridge".into(),
            accounts.charlie,
            "https://pay".into(),
            "v2".into(),
            10_000,
        )
        .unwrap();
    assert_eq!(pay, 2);
    assert_eq!(contract.initiate_kyc_request(&as_caller(accounts.bob), kyc, accounts.bob, "a".into()), Ok(1));
    assert_eq!(
        contract.initiate_fiat_payment(&as_caller(accounts.bob), pay, accounts.alice, 0, 5, "USD".into(), "b".into()),
        Ok(2)
    );
    assert_eq!(contract.initiate_kyc_request(&as_caller(accounts.alice), kyc, accounts.bob, "c".into()), Ok(3));
    let payment = contract.get_payment_request(2).unwrap();
    assert_eq!(payment.payer, accounts.bob);
    assert_eq!(payment.status, RequestStatus::Pending);
    assert_eq!(payment.equivalent_tokens, 0);
    assert_eq!(payment.fiat_currency, "USD");
}

#[test]
fn failed_payment_is_final() {
    let accounts = default_accounts();
    let mut contract = setup();
    let pay = contract
        .register_service(
            &as_caller(accounts.alice),
            ServiceType::PaymentGateway,
            "Bridge".into(),
            accounts.charlie,
            "https://pay".into(),
            "v2".into(),
            0,
        )
        .unwrap();
    let id = contract
        .initiate_fiat_payment(&at(accounts.bob, 10), pay, accounts.alice, 0, 5, "USD".into(), "b".into())
        .unwrap();
    assert_eq!(contract.complete_payment(&at(accounts.charlie, 20), id, false, 9), Ok(()));
    let payment = contract.get_payment_request(id).unwrap();
    assert_eq!(payment.status, RequestStatus::Failed);
    assert_eq!(payment.complete_time, Some(20));
    assert_eq!(payment.init_time, 10);
    assert_eq!(
        contract.complete_payment(&as_caller(accounts.charlie), id, true, 9),
        Err(Error::InvalidStatusTransition)
    );
}

#[test]
fn monitoring_alerts_come_only_from_the_provider() {
    let accounts = default_accounts();
    let mut contract = setup();
    let monitor = contract
        .register_service(
            &as_caller(accounts.alice),
            ServiceType::Monitoring,
            "Watcher".into(),
            accounts.charlie,
            "https://watch".into(),
            "v1".into(),
            0,
        )
        .unwrap();
    let other = contract
        .register_service(
            &as_caller(accounts.alice),
            ServiceType::Other,
            "Misc".into(),
            accounts.charlie,
            "https://misc".into(),
            "v1".into(),
            0,
        )
        .unwrap();
    let before = contract.emitted_events().len();
    assert_eq!(contract.log_alert(&as_caller(accounts.eve), monitor, 3, "spoof".into()), Err(Error::Unauthorized));
    assert_eq!(contract.emitted_events().len(), before);
    assert_eq!(contract.log_alert(&as_caller(accounts.charlie), monitor, 3, "disk".into()), Ok(()));
    assert_eq!(contract.log_alert(&as_caller(accounts.eve), other, 1, "note".into()), Ok(()));
    assert_eq!(contract.emitted_events().len(), before + 2);
}

#[test]
fn events_record_each_accepted_message() {
    let accounts = default_accounts();
    let mut contract = setup();
    let id = register_kyc_provider(&mut contract, accounts.charlie);
    assert_eq!(
        contract.update_service_status(&as_caller(accounts.alice), id, ServiceStatus::Inactive),
        Ok(())
    );
    assert_eq!(
        contract.update_service_status(&as_caller(accounts.alice), id, ServiceStatus::Active),
        Ok(())
    );
    let req = contract.initiate_kyc_request(&as_caller(accounts.bob), id, accounts.bob, "r".into()).unwrap();
    assert_eq!(
        contract.update_kyc_status(&as_caller(accounts.charlie), req, RequestStatus::Approved, 4, 2),
        Ok(())
    );
    let events = contract.emitted_events();
    assert_eq!(events.len(), 5);
    assert_eq!(
        events[1],
        ThirdPartyEvent::ServiceStatusChanged(ServiceStatusChanged {
            service_id: id,
            old_status: ServiceStatus::Active,
            new_status: ServiceStatus::Inactive,
        })
    );
    assert_eq!(
        events[4],
        ThirdPartyEvent::KycStatusUpdated(KycStatusUpdated {
            request_id: req,
            user: accounts.bob,
            status: RequestStatus::Approved,
            verification_level: 4,
        })
    );
    match &events[0] {
        ThirdPartyEvent::ServiceRegistered(e) => {
            assert_eq!(e.service_id, id);
            assert_eq!(e.name, "KYC Partner");
            assert_eq!(e.provider_account, accounts.charlie);
        }
        other => panic!("unexpected event {:?}", other),
    }
}

#[test]
fn service_registration_records_all_fields() {
    let accounts = default_accounts();
    let mut contract = setup();
    let id = contract
        .register_service(
            &at(accounts.alice, 77),
            ServiceType::Other,
            "Oracle".into(),
            accounts.bob,
            "https://oracle".into(),
            "v9".into(),
            10_000,
        )
        .unwrap();
    let config = contract.get_service_config(id).unwrap();
    assert_eq!(config.service_id, 1);
    assert_eq!(config.name, "Oracle");
    assert_eq!(config.endpoint_url, "https://oracle");
    assert_eq!(config.api_version, "v9");
    assert_eq!(config.registered_at, 77);
    assert_eq!(config.fees_collected, 0);
    assert_eq!(config.fee_percentage, 10_000);
}

#[test]
fn permission_queries_match_the_messages() {
    let accounts = default_accounts();
    let mut contract = setup();
    assert!(contract.registration_permitted(&as_caller(accounts.alice), 10_000));
    assert!(!contract.registration_permitted(&as_caller(accounts.alice), 10_001));
    assert!(!contract.registration_permitted(&as_caller(accounts.bob), 0));
    let kyc = register_kyc_provider(&mut contract, accounts.charlie);
    assert!(contract.kyc_initiation_permitted(&as_caller(accounts.bob), kyc, accounts.bob));
    assert!(contract.kyc_initiation_permitted(&as_caller(accounts.alice), kyc, accounts.bob));
    assert!(!contract.kyc_initiation_permitted(&as_caller(accounts.eve), kyc, accounts.bob));
    assert!(!contract.payment_initiation_permitted(kyc));
    assert!(!contract.payment_initiation_permitted(99));
    assert_eq!(contract.service_count(), 1);
    assert_eq!(contract.request_count(), 0);
    assert_eq!(contract.admin(), accounts.alice);
    let req = contract.initiate_kyc_request(&as_caller(accounts.bob), kyc, accounts.bob, "r".into()).unwrap();
    assert!(contract.kyc_update_permitted(&as_caller(accounts.charlie), req));
    assert!(!contract.kyc_update_permitted(&as_caller(accounts.eve), req));
    assert_eq!(contract.request_count(), 1);
}
