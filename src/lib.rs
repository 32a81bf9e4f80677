//! A traced HTTP fetch: backend selection, span-context propagation across the
//! asynchronous boundary into the chosen backend, and the exporter lifecycle.

pub mod backend;
pub mod trace;
pub mod run;
pub mod laws;
