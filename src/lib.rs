//! Produce tracking and conditional settlement for a multi-party supply chain.

pub mod error;
pub mod participant;
pub mod produce;
pub mod payment;
pub mod dispute;
pub mod governance;
