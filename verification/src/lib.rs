//! rustboot: verified building blocks for web services.
//!
//! Strings and maps (`text`, `strmap`, `base64`, `json`, `ids`, `clock`); security
//! (`security`, `auth`, `authz`, `secrets`, `audit`); HTTP middleware decisions
//! (`http_context`, `cors`, `http_ratelimit`, `http_logging`, `security_headers`,
//! `pipeline`); rate limiting and resilience (`ratelimit`, `resilience`); observability
//! (`observability`); markdown statistics (`markdown`); and the OpenAPI document model
//! (`openapi_spec`, `openapi_builder`, `openapi_schema`, `swagger_ui`).
use vstd::prelude::*;

pub mod text;
pub mod strmap;
pub mod base64;
pub mod json;
pub mod ids;
pub mod clock;
pub mod security;
pub mod auth;
pub mod authz;
pub mod secrets;
pub mod audit;
pub mod http_context;
pub mod cors;
pub mod ratelimit;
pub mod http_ratelimit;
pub mod http_logging;
pub mod security_headers;
pub mod pipeline;
pub mod resilience;
pub mod observability;
pub mod markdown;
pub mod openapi_spec;
pub mod openapi_builder;
pub mod openapi_schema;
pub mod swagger_ui;

verus! {

} // verus!
