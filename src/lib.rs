//! Client for the public GitPOAP API: request paths, status tokens, and the
//! decoding of JSON response trees into typed records.
pub mod error;
pub mod json;
pub mod response;
pub mod status;
pub mod v1;
