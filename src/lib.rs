//! Adapter between collection-management requests and a coordinator: converts
//! each mutating request into an internal operation with its wait timeout,
//! classifies coordinator failures, and shapes the responses of every call.

pub mod dispatch;
pub mod operations;
pub mod reads;
pub mod requests;
pub mod service;
pub mod status;
pub mod timeout;
