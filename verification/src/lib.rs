//! Document generation: requests for documents are taken from a message
//! queue, rendered into one or more formats, stored, recorded and answered.
//!
//! The library holds the decisions and the data; whoever runs it does the
//! waiting. [`pipeline`] is the life of one generation job as a sequence of
//! steps, each of which asks for one action and is told what came of it.
//! [`persistence`] is the tenant-partitioned store of job records, artifacts
//! and templates, and [`status`] the lifecycle that the records follow.
//! [`gcs`] says where a rendered file goes and what is recorded of it,
//! [`renderers`] and [`generators`] how content is produced, [`pubsub`] what
//! a delivered request becomes, and [`consumer`] when to receive, pause and
//! stop. [`runner`] runs a job to its end on the store and states what
//! becomes of a job with nothing in its way. The remaining modules are the
//! values all of these are made of.

pub mod checksum;
pub mod clock;
pub mod config;
pub mod consumer;
pub mod encoding;
pub mod error;
pub mod gcs;
pub mod generators;
pub mod ident;
pub mod json;
pub mod models;
pub mod persistence;
pub mod pipeline;
pub mod pubsub;
pub mod renderers;
pub mod runner;
pub mod status;
pub mod template;
pub mod text;
