//! The decision core of a small student-records service.
//!
//! The service answers HTTP requests by sending typed messages to a pool of workers that
//! talk to a relational store. This library holds what the service decides: which message a
//! request becomes, which reply the store's answer becomes, and what a malformed request is
//! told. Receiving, sending, waiting and storing are left to the program around it.

pub mod config;
pub mod decimal;
pub mod errors;
pub mod login;
pub mod reply;
pub mod students;
