use nsddns::drive;
use nsddns::outcome_is_success;
use nsddns::DriverAction;
use nsddns::DriverEvent;
use nsddns::DriverState;
use nsddns::NsddnsConfig;
use nsddns::NsddnsError;
use nsddns::ReconciliationOutcome;

fn config() -> NsddnsConfig {
    NsddnsConfig {
        domain: "example.com".to_string(),
        subdomain: "sub".to_string(),
        api_key: "k".to_string(),
    }
}

const LISTING_ONE_MATCH: &str = "<namesilo><reply><code>300</code>\
    <resource_record><record_id>r1</record_id><type>A</type>\
    <host>sub.example.com</host><value>1.1.1.1</value></resource_record>\
    </reply></namesilo>";

const LISTING_NO_MATCH: &str = "<namesilo><reply><code>300</code>\
    <resource_record><record_id>r9</record_id><type>A</type>\
    <host>elsewhere.example.com</host><value>9.9.9.9</value></resource_record>\
    </reply></namesilo>";

const REPLY_SUCCESS: &str = "<namesilo><reply><code>300</code></reply></namesilo>";
const REPLY_FAILURE: &str = "<namesilo><reply><code>280</code></reply></namesilo>";

fn fetch_record(cfg: &NsddnsConfig, dry_run: bool, listing: &str) -> (DriverState, DriverAction) {
    let (state, action) = drive(cfg, dry_run, DriverState::Idle, DriverEvent::Start);
    assert!(matches!(action, DriverAction::FetchListing));
    assert!(matches!(state, DriverState::AwaitingListing));
    drive(cfg, dry_run, state, DriverEvent::ListingReceived { body: Some(listing.to_string()) })
}

#[test]
fn run_updates_when_values_differ() {
    let cfg = config();
    let (state, action) = fetch_record(&cfg, false, LISTING_ONE_MATCH);
    assert!(matches!(action, DriverAction::FetchIp));
    let (state, action) =
        drive(&cfg, false, state, DriverEvent::IpReceived { body: Some("2.2.2.2".to_string()) });
    match &action {
        DriverAction::SendUpdate { rrhost, rrvalue, rrid } => {
            assert_eq!(rrhost, "sub");
            assert_eq!(rrvalue, "2.2.2.2");
            assert_eq!(rrid, "r1");
        },
        other => panic!("expected SendUpdate, got {:?}", other),
    }
    let (_, action) = drive(
        &cfg,
        false,
        state,
        DriverEvent::ReplyReceived { body: Some(REPLY_SUCCESS.to_string()) },
    );
    match action {
        DriverAction::Report { outcome } => {
            assert!(matches!(outcome, ReconciliationOutcome::Updated));
            assert!(outcome_is_success(&outcome));
        },
        other => panic!("expected Report, got {:?}", other),
    }
}

#[test]
fn run_is_a_no_op_when_values_are_equal() {
    let cfg = config();
    let (state, action) = fetch_record(&cfg, false, LISTING_ONE_MATCH);
    assert!(matches!(action, DriverAction::FetchIp));
    let (state, action) =
        drive(&cfg, false, state, DriverEvent::IpReceived { body: Some("1.1.1.1".to_string()) });
    assert!(matches!(state, DriverState::Finished));
    match action {
        DriverAction::Report { outcome } => {
            assert!(matches!(outcome, ReconciliationOutcome::NoOpNeeded));
            assert!(outcome_is_success(&outcome));
        },
        other => panic!("expected Report and no mutation call, got {:?}", other),
    }
}

#[test]
fn run_stops_without_ip_fetch_when_nothing_matches() {
    let cfg = config();
    let (state, action) = fetch_record(&cfg, false, LISTING_NO_MATCH);
    assert!(matches!(state, DriverState::Finished));
    match action {
        DriverAction::Report { outcome } => match outcome {
            ReconciliationOutcome::NoMatch { target_host, domain } => {
                assert_eq!(target_host, "sub.example.com");
                assert_eq!(domain, "example.com");
            },
            other => panic!("expected NoMatch, got {:?}", other),
        },
        other => panic!("expected Report and no IP fetch, got {:?}", other),
    }
}

#[test]
fn dry_run_withholds_the_update() {
    let cfg = config();
    let (state, _) = fetch_record(&cfg, true, LISTING_ONE_MATCH);
    let (state, action) =
        drive(&cfg, true, state, DriverEvent::IpReceived { body: Some("2.2.2.2".to_string()) });
    assert!(matches!(state, DriverState::Finished));
    match action {
        DriverAction::Report { outcome } => match &outcome {
            ReconciliationOutcome::WouldUpdate { record, new_value } => {
                assert_eq!(record.record_id, "r1");
                assert_eq!(new_value, "2.2.2.2");
                assert!(outcome_is_success(&outcome));
            },
            other => panic!("expected WouldUpdate, got {:?}", other),
        },
        other => panic!("expected Report, got {:?}", other),
    }
}

#[test]
fn rejected_reply_is_an_update_failure() {
    let cfg = config();
    let (state, _) = fetch_record(&cfg, false, LISTING_ONE_MATCH);
    let (state, _) =
        drive(&cfg, false, state, DriverEvent::IpReceived { body: Some("2.2.2.2".to_string()) });
    let (_, action) = drive(
        &cfg,
        false,
        state,
        DriverEvent::ReplyReceived { body: Some(REPLY_FAILURE.to_string()) },
    );
    match action {
        DriverAction::Report { outcome } => {
            assert!(!outcome_is_success(&outcome));
            assert!(matches!(
                outcome,
                ReconciliationOutcome::UpdateFailed { error: NsddnsError::ApiRejected }
            ));
        },
        other => panic!("expected Report, got {:?}", other),
    }
}

#[test]
fn listing_transport_failure_ends_the_run() {
    let cfg = config();
    let (state, _) = drive(&cfg, false, DriverState::Idle, DriverEvent::Start);
    let (state, action) = drive(&cfg, false, state, DriverEvent::ListingReceived { body: None });
    assert!(matches!(state, DriverState::Finished));
    assert!(matches!(
        action,
        DriverAction::Report {
            outcome: ReconciliationOutcome::FetchFailed { error: NsddnsError::TransportFailure },
        }
    ));
}

#[test]
fn unparseable_listing_ends_the_run() {
    let cfg = config();
    let (state, action) = fetch_record(&cfg, false, "<namesilo>");
    assert!(matches!(state, DriverState::Finished));
    assert!(matches!(
        action,
        DriverAction::Report {
            outcome: ReconciliationOutcome::FetchFailed { error: NsddnsError::MalformedResponse },
        }
    ));
}

#[test]
fn ip_transport_failure_ends_the_run() {
    let cfg = config();
    let (state, _) = fetch_record(&cfg, false, LISTING_ONE_MATCH);
    let (state, action) = drive(&cfg, false, state, DriverEvent::IpReceived { body: None });
    assert!(matches!(state, DriverState::Finished));
    match action {
        DriverAction::Report { outcome } => {
            assert!(matches!(outcome, ReconciliationOutcome::IpFetchFailed));
            assert!(!outcome_is_success(&outcome));
        },
        other => panic!("expected Report, got {:?}", other),
    }
}

#[test]
fn reply_transport_failure_is_an_update_failure() {
    let cfg = config();
    let (state, _) = fetch_record(&cfg, false, LISTING_ONE_MATCH);
    let (state, _) =
        drive(&cfg, false, state, DriverEvent::IpReceived { body: Some("2.2.2.2".to_string()) });
    let (_, action) = drive(&cfg, false, state, DriverEvent::ReplyReceived { body: None });
    assert!(matches!(
        action,
        DriverAction::Report {
            outcome: ReconciliationOutcome::UpdateFailed { error: NsddnsError::TransportFailure },
        }
    ));
}
