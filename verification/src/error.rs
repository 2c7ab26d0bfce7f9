use vstd::prelude::*;

verus! {

/// Every way a single reconciliation run can fail.  All of them are terminal
/// for the run: nothing is retried.
#[derive(Debug)]
pub enum NsddnsError {
    /// A required key was absent from the configuration document (or was not
    /// a string).  `key` names the absent key.
    MissingKey { key: String },
    /// The configuration document could not be parsed as JSON at all.
    MalformedDocument,
    /// The registrar's listing was not parseable markup, or a retained "A"
    /// record lacked one of its required `host`/`value`/`record_id` fields.
    MalformedResponse,
    /// No record in the listing matched the configured host.
    NoMatchingRecord { target_host: String, domain: String },
    /// The registrar's mutation reply did not carry the documented success code.
    ApiRejected,
    /// A network-level failure from the registrar or from the IP service.
    TransportFailure,
}

} // verus!
