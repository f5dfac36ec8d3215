//! Ticket printing: line layout, the raster print job, the spool job,
//! the printer directory filter and the request checks that pick a job.
pub mod directory;
pub mod orchestrator;
pub mod outcome;
pub mod raster;
pub mod spool;
pub mod text;
