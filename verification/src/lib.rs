//! Translation of pull-request lifecycle events into chat notifications:
//! parsing an inbound event into a typed action model, fail-open resolution
//! of anonymized identities, mention scanning of comment bodies, and the
//! per-kind rendering of the notification to deliver.

pub mod mentions;
pub mod model;
pub mod render;
pub mod resolve;
pub mod text;
