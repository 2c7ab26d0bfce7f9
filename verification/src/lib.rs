pub mod config;
pub mod driver;
pub mod error;
pub mod records;
pub mod reply;
pub mod xml;

pub use config::parse_config;
pub use config::NsddnsConfig;
pub use driver::drive;
pub use driver::outcome_is_success;
pub use driver::DriverAction;
pub use driver::DriverEvent;
pub use driver::DriverState;
pub use driver::ReconciliationOutcome;
pub use error::NsddnsError;
pub use records::parse_namesilo_a_records_xml;
pub use records::resolve_record;
pub use records::target_host;
pub use records::NsResourceRecord;
pub use reply::validate_reply_code;
