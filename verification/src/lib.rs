//! Verified core of a contract-verification submission pipeline.
//!
//! A locally built smart-contract workspace is submitted to a third-party
//! verification service, which recompiles the sources and attests that they
//! match an on-chain class. This crate holds the verified logic of that
//! pipeline: selecting the service and network, collecting the relevant
//! workspace files into a bundle, rendering the request payload as JSON,
//! resolving the service endpoint, classifying the service's answer, and the
//! orchestrating state machine that drives the stages in order. The
//! surrounding I/O (prompting, directory walking, the HTTP exchange) is left
//! to an unverified driver that feeds plain values in and out.

pub mod network;
pub mod endpoint;
pub mod json;
pub mod collector;
pub mod error;
pub mod executor;
pub mod payload;
pub mod paths;
pub mod orchestrator;
