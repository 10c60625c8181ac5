//! Monitoring engine for a fleet of registered websites.
//!
//! Three independent scanners share one storage handle: a health-check
//! scheduler that probes each site, records availability transitions in an
//! append-only history and fires owner webhooks; a domain-expiry scanner
//! that refreshes WHOIS expiry data; and a TLS-certificate scanner that
//! refreshes certificate expiry data. This crate holds the decision logic
//! of all three: probe classification, the retry policy, transition
//! detection, staleness selection, and the parsers for WHOIS pages and
//! certificate-tool output. Network and storage I/O stay with the caller.

pub mod config;
pub mod dates;
pub mod domain;
pub mod health;
pub mod history;
pub mod hostname;
pub mod htmlq;
pub mod pool;
pub mod probe;
pub mod site;
pub mod ssl;
pub mod status;
pub mod text;
