//! A cross-backend benchmark harness for one GPU compute workload: the
//! planning of the compiler pipelines that produce each variant, the data and
//! command layout that every variant is dispatched with, the decoding of what
//! comes back, and the ordered report that compares each variant with the
//! reference value.
pub mod noise;
pub mod lanes;
pub mod orchestrator;
pub mod words;
pub mod engine;
pub mod text;
pub mod report;
pub mod options;
