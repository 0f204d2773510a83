//! Request planning for a service that computes technical indicators over
//! price series: which indicator a request names, which window and which
//! time stamps feed it, and how the service's settings are loaded.

pub mod error;
pub mod grpc;
pub mod settings;
pub mod timeline;

use vstd::prelude::*;

verus! {

/// The service that answers indicator requests. It holds no state.
#[derive(Debug, Default)]
pub struct IndicatorService;

} // verus!
