pub mod ids;
pub mod job;
pub mod json;
pub mod purl_conv;
pub mod report;
pub mod risk;
