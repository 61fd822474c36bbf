//! Deployment orchestration engine.
//!
//! The crate drives one application deployment attempt — to a local container
//! runtime in development mode, or to an orchestration cluster in production
//! mode — as a verified state machine.  All decisions (what to call next, how
//! to classify an outcome, how the persisted record changes) are made here;
//! the process invocations, file writes and terminal output that carry those
//! decisions out live in the unverified front end.
//!
//! The pieces:
//! - [`model`] — the spec and record types, their validity, and the status
//!   machine with its monotonicity law;
//! - [`config`] — pure, deterministic rendering of every artifact;
//! - [`orchestrator`] — one parameterized pipeline: environment gate with
//!   bounded recovery, build/run execution, convergence, and the cluster
//!   rollout, exposed as `next_action`/`step`;
//! - [`state_store`] — the persisted JSON document: its exact text, and a
//!   parser that accepts only what the renderer writes;
//! - [`cleanup`] — best-effort, idempotent reversal;
//! - [`infrastructure`] — the auxiliary, non-gating provisioning group;
//! - [`errors`] — the failure taxonomy;
//! - [`text`] — decimal rendering and whitespace splitting.

pub mod cleanup;
pub mod config;
pub mod errors;
pub mod infrastructure;
pub mod model;
pub mod orchestrator;
pub mod state_store;
pub mod text;
