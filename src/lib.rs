pub mod configuration;
pub mod request_sender;
pub mod logging;
pub mod headers;
pub mod error;
pub mod transcode;
pub mod proxy;
pub mod request;
pub mod access_log;
