//! Core of a newsletter sign-up service: the validated subscriber values, the
//! wire contract of the transactional email provider, and the decisions of the
//! subscription workflow. Nothing here performs I/O; the process around this
//! library persists rows and sends requests as the workflow tells it to.

pub mod domain;
pub mod email_client;
pub mod routes;
pub mod system;
pub mod text;
