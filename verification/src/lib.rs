//! Core logic of an HTTP/2 throughput benchmark: a bounded-memory generator
//! of zero-valued byte chunks, a counting sink for uploads, transport tuning
//! parameters, request-handling decisions, and throughput computation.

pub mod chunk;
pub mod generator;
pub mod handler;
pub mod measure;
pub mod sink;
pub mod tuner;
