//! Builds an in-memory metadata index keyed by IP network prefixes, for
//! annotating network log events with geolocation, autonomous-system and
//! cloud-provider information. Bulk reference data arrives from three
//! independently shaped sources: a vendor geolocation database of joined
//! delimited tables, and two cloud-range catalogs published as JSON. The
//! library holds the parsing, joining, normalizing and validating logic,
//! each function carrying its contract; fetching, archive extraction and
//! file reading live with the caller, which hands lines and documents in
//! and takes record batches out.

pub mod aws;
pub mod azure;
pub mod common;
pub mod csv;
pub mod err;
pub mod maxmind;
pub mod net;
pub mod num;
pub mod o365;
pub mod tasks;
pub mod text;
