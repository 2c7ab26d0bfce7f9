use vstd::prelude::*;

use crate::config::NsddnsConfig;
use crate::error::NsddnsError;
use crate::records::first_host_match;
use crate::records::parse_namesilo_a_records_xml;
use crate::records::records_from;
use crate::records::records_view;
use crate::records::resolve_record;
use crate::records::spec_target_host;
use crate::records::NsResourceRecord;
use crate::reply::reply_success;
use crate::reply::validate_reply_code;
use crate::xml::xml_nodes_of;

verus! {

/// The driver's position within a single reconciliation run.
#[derive(Debug)]
pub enum DriverState {
    /// Nothing has been asked for yet.
    Idle,
    /// The list-records request is out.
    AwaitingListing,
    /// The matching record is known; the current-IP request is out.
    AwaitingIp { record: NsResourceRecord },
    /// The update request is out.
    AwaitingReply,
    /// A terminal outcome has been reported.
    Finished,
}

/// What the surrounding program hands to the driver: `Start` to begin a run,
/// then each response body as it arrives, `None` for a transport failure.
#[derive(Debug)]
pub enum DriverEvent {
    Start,
    ListingReceived { body: Option<String> },
    IpReceived { body: Option<String> },
    ReplyReceived { body: Option<String> },
}

/// What the surrounding program must do next.
#[derive(Debug)]
pub enum DriverAction {
    /// Call the registrar's list-records endpoint for the configured domain.
    FetchListing,
    /// Call the IP-reporting service.
    FetchIp,
    /// Call the registrar's update-record endpoint with exactly these values.
    SendUpdate { rrhost: String, rrvalue: String, rrid: String },
    /// The run is over: report the outcome and stop.
    Report { outcome: ReconciliationOutcome },
}

/// A run's terminal report.
#[derive(Debug)]
pub enum ReconciliationOutcome {
    /// The record already holds the current IP; nothing to do.
    NoOpNeeded,
    /// The registrar confirmed the update.
    Updated,
    /// Dry run: the record would have been updated to `new_value`.
    WouldUpdate { record: NsResourceRecord, new_value: String },
    /// The listing could not be fetched or parsed.
    FetchFailed { error: NsddnsError },
    /// No record in the listing matched the target host.
    NoMatch { target_host: String, domain: String },
    /// The current IP could not be fetched.
    IpFetchFailed,
    /// The registrar did not confirm the update.
    UpdateFailed { error: NsddnsError },
}

/// Which event each state expects.
pub open spec fn event_fits(state: DriverState, event: DriverEvent) -> bool {
    match (state, event) {
        (DriverState::Idle, DriverEvent::Start) => true,
        (DriverState::AwaitingListing, DriverEvent::ListingReceived { .. }) => true,
        (DriverState::AwaitingIp { .. }, DriverEvent::IpReceived { .. }) => true,
        (DriverState::AwaitingReply, DriverEvent::ReplyReceived { .. }) => true,
        _ => false,
    }
}

/// What the listing step decides, from the listing body alone: a transport or
/// parse failure ends the run, a missing match ends it with the computed
/// host, and the first matching record moves the run on to the IP fetch.
pub open spec fn listing_step_post(
    config: NsddnsConfig,
    body: Option<String>,
    next: DriverState,
    action: DriverAction,
) -> bool {
    match body {
        None => {
            &&& next is Finished
            &&& action matches DriverAction::Report { outcome }
            &&& outcome matches ReconciliationOutcome::FetchFailed { error }
            &&& error is TransportFailure
        },
        Some(xml) => match xml_nodes_of(xml@) {
            None => {
                &&& next is Finished
                &&& action matches DriverAction::Report { outcome }
                &&& outcome matches ReconciliationOutcome::FetchFailed { error }
                &&& error is MalformedResponse
            },
            Some(ns) => match records_from(ns, 0) {
                None => {
                    &&& next is Finished
                    &&& action matches DriverAction::Report { outcome }
                    &&& outcome matches ReconciliationOutcome::FetchFailed { error }
                    &&& error is MalformedResponse
                },
                Some(rs) => {
                    let th = spec_target_host(config.domain@, config.subdomain@);
                    match first_host_match(rs, th, 0) {
                        None => {
                            &&& next is Finished
                            &&& action matches DriverAction::Report { outcome }
                            &&& outcome matches ReconciliationOutcome::NoMatch {
                                target_host,
                                domain,
                            }
                            &&& target_host@ == th
                            &&& domain@ == config.domain@
                        },
                        Some(i) => {
                            &&& next matches DriverState::AwaitingIp { record }
                            &&& record@ == rs[i]
                            &&& action is FetchIp
                        },
                    }
                },
            },
        },
    }
}

/// What the comparison step decides: equal values end the run with a no-op; a
/// dry run withholds the update and reports the intended change; otherwise
/// the update goes out with the record's id, the configured subdomain and the
/// fetched IP.
pub open spec fn ip_step_post(
    config: NsddnsConfig,
    dry_run: bool,
    record: NsResourceRecord,
    body: Option<String>,
    next: DriverState,
    action: DriverAction,
) -> bool {
    match body {
        None => {
            &&& next is Finished
            &&& action matches DriverAction::Report { outcome }
            &&& outcome is IpFetchFailed
        },
        Some(ip) => if record.record_value@ == ip@ {
            &&& next is Finished
            &&& action matches DriverAction::Report { outcome }
            &&& outcome is NoOpNeeded
        } else if dry_run {
            &&& next is Finished
            &&& action matches DriverAction::Report { outcome }
            &&& outcome matches ReconciliationOutcome::WouldUpdate { record: r2, new_value }
            &&& r2@ == record@
            &&& new_value@ == ip@
        } else {
            &&& next is AwaitingReply
            &&& action matches DriverAction::SendUpdate { rrhost, rrvalue, rrid }
            &&& rrhost@ == config.subdomain@
            &&& rrvalue@ == ip@
            &&& rrid@ == record.record_id@
        },
    }
}

/// What the reply step decides: the run ends, updated exactly when the
/// registrar's reply carries the success code.
pub open spec fn reply_step_post(
    body: Option<String>,
    next: DriverState,
    action: DriverAction,
) -> bool {
    &&& next is Finished
    &&& action matches DriverAction::Report { outcome }
    &&& match body {
        None => {
            &&& outcome matches ReconciliationOutcome::UpdateFailed { error }
            &&& error is TransportFailure
        },
        Some(xml) => match xml_nodes_of(xml@) {
            None => {
                &&& outcome matches ReconciliationOutcome::UpdateFailed { error }
                &&& error is MalformedResponse
            },
            Some(ns) => if reply_success(ns) {
                outcome is Updated
            } else {
                &&& outcome matches ReconciliationOutcome::UpdateFailed { error }
                &&& error is ApiRejected
            },
        },
    }
}

/// The whole contract of one driver step.
pub open spec fn drive_post(
    config: NsddnsConfig,
    dry_run: bool,
    state: DriverState,
    event: DriverEvent,
    next: DriverState,
    action: DriverAction,
) -> bool {
    match (state, event) {
        (DriverState::Idle, DriverEvent::Start) => next is AwaitingListing
            && action is FetchListing,
        (DriverState::AwaitingListing, DriverEvent::ListingReceived { body }) => listing_step_post(
            config,
            body,
            next,
            action,
        ),
        (DriverState::AwaitingIp { record }, DriverEvent::IpReceived { body }) => ip_step_post(
            config,
            dry_run,
            record,
            body,
            next,
            action,
        ),
        (DriverState::AwaitingReply, DriverEvent::ReplyReceived { body }) => reply_step_post(
            body,
            next,
            action,
        ),
        _ => false,
    }
}

/// One step of the reconciliation run: from the current state and the event
/// the surrounding program observed, decide the next state and the action to
/// perform.  The surrounding program only performs actions as instructed, so
/// every decision of a run stands here, and the steps are strictly
/// sequential: fetch the record, fetch the current IP, compare, then update
/// or stop.
pub fn drive(config: &NsddnsConfig, dry_run: bool, state: DriverState, event: DriverEvent) -> (r: (
    DriverState,
    DriverAction,
))
    requires
        event_fits(state, event),
    ensures
        drive_post(*config, dry_run, state, event, r.0, r.1),
{
    match (state, event) {
        (DriverState::Idle, DriverEvent::Start) => (
            DriverState::AwaitingListing,
            DriverAction::FetchListing,
        ),
        (DriverState::AwaitingListing, DriverEvent::ListingReceived { body }) => drive_listing(
            config,
            body,
        ),
        (DriverState::AwaitingIp { record }, DriverEvent::IpReceived { body }) => drive_ip(
            config,
            dry_run,
            record,
            body,
        ),
        (DriverState::AwaitingReply, DriverEvent::ReplyReceived { body }) => drive_reply(body),
        _ => {
            proof {
                assert(false);
            }
            (DriverState::Finished, DriverAction::FetchListing)
        },
    }
}

fn drive_listing(config: &NsddnsConfig, body: Option<String>) -> (r: (DriverState, DriverAction))
    ensures
        listing_step_post(*config, body, r.0, r.1),
{
    let xml = match body {
        Some(xml) => xml,
        None => {
            return (
                DriverState::Finished,
                DriverAction::Report {
                    outcome: ReconciliationOutcome::FetchFailed {
                        error: NsddnsError::TransportFailure,
                    },
                },
            );
        },
    };
    let records = match parse_namesilo_a_records_xml(xml.as_str()) {
        Ok(records) => records,
        Err(e) => {
            return (
                DriverState::Finished,
                DriverAction::Report { outcome: ReconciliationOutcome::FetchFailed { error: e } },
            );
        },
    };
    match resolve_record(records, config) {
        Ok(record) => (DriverState::AwaitingIp { record }, DriverAction::FetchIp),
        Err(e) => match e {
            NsddnsError::NoMatchingRecord { target_host, domain } => (
                DriverState::Finished,
                DriverAction::Report {
                    outcome: ReconciliationOutcome::NoMatch { target_host, domain },
                },
            ),
            _ => {
                proof {
                    assert(false);
                }
                (DriverState::Finished, DriverAction::FetchIp)
            },
        },
    }
}

fn drive_ip(config: &NsddnsConfig, dry_run: bool, record: NsResourceRecord, body: Option<String>) -> (r: (
    DriverState,
    DriverAction,
))
    ensures
        ip_step_post(*config, dry_run, record, body, r.0, r.1),
{
    let ip = match body {
        Some(ip) => ip,
        None => {
            return (
                DriverState::Finished,
                DriverAction::Report { outcome: ReconciliationOutcome::IpFetchFailed },
            );
        },
    };
    if record.record_value == ip {
        (DriverState::Finished, DriverAction::Report { outcome: ReconciliationOutcome::NoOpNeeded })
    } else if dry_run {
        (
            DriverState::Finished,
            DriverAction::Report {
                outcome: ReconciliationOutcome::WouldUpdate { record, new_value: ip },
            },
        )
    } else {
        (
            DriverState::AwaitingReply,
            DriverAction::SendUpdate {
                rrhost: config.subdomain.clone(),
                rrvalue: ip,
                rrid: record.record_id.clone(),
            },
        )
    }
}

fn drive_reply(body: Option<String>) -> (r: (DriverState, DriverAction))
    ensures
        reply_step_post(body, r.0, r.1),
{
    let xml = match body {
        Some(xml) => xml,
        None => {
            return (
                DriverState::Finished,
                DriverAction::Report {
                    outcome: ReconciliationOutcome::UpdateFailed {
                        error: NsddnsError::TransportFailure,
                    },
                },
            );
        },
    };
    match validate_reply_code(xml.as_str()) {
        Ok(()) => (
            DriverState::Finished,
            DriverAction::Report { outcome: ReconciliationOutcome::Updated },
        ),
        Err(e) => (
            DriverState::Finished,
            DriverAction::Report { outcome: ReconciliationOutcome::UpdateFailed { error: e } },
        ),
    }
}

/// Whether a terminal outcome counts as success for exit-status purposes.
pub open spec fn spec_outcome_is_success(outcome: ReconciliationOutcome) -> bool {
    match outcome {
        ReconciliationOutcome::NoOpNeeded => true,
        ReconciliationOutcome::Updated => true,
        ReconciliationOutcome::WouldUpdate { .. } => true,
        _ => false,
    }
}

/// Whether a terminal outcome counts as success for exit-status purposes:
/// a no-op, a confirmed update, or a withheld dry-run update.
pub fn outcome_is_success(outcome: &ReconciliationOutcome) -> (r: bool)
    ensures
        r == spec_outcome_is_success(*outcome),
{
    match outcome {
        ReconciliationOutcome::NoOpNeeded => true,
        ReconciliationOutcome::Updated => true,
        ReconciliationOutcome::WouldUpdate { .. } => true,
        _ => false,
    }
}

} // verus!
