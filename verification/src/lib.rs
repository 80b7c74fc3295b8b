//! Control of the switched outlets of a rack power distribution unit over
//! SNMP.
//!
//! The unit has eight outlets ([`outlet`]). Each has a state that can be read
//! ([`status`]) and takes commands ([`command`]), both as integers under an
//! object identifier that ends in the outlet's number ([`oid`]). The two
//! operations on an outlet are in [`service`]; they reach the unit through a
//! function that the caller hands in, so the library itself opens no
//! connection. [`web`] and [`cli`] hold what the two front ends say.

pub mod cli;
pub mod command;
pub mod error;
pub mod oid;
pub mod outlet;
pub mod service;
pub mod status;
pub mod text;
pub mod w6otx_snmp;
pub mod web;
