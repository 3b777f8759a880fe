//! Subdomain discovery: candidate generation, certificate-name extraction,
//! bounded-concurrency dispatch of name resolutions, and the scan result.

pub mod dispatch;
pub mod model;
pub mod names;
pub mod result;
pub mod scanner;
