//! A service status endpoint: the report that a bank service hands to the
//! monitoring system that polls it, modelled and proved with Verus.
pub mod report;
pub mod endpoint;
