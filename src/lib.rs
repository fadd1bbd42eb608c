//! A metrics endpoint: each scrape gathers a registry, encodes it in the
//! text exposition format and answers with the bytes and their content type,
//! or with an internal-error status when encoding fails.
pub mod exporter;
pub mod response;
