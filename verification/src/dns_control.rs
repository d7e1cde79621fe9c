//! System-wide DNS control on Windows: the resolvers the system already has,
//! and the NRPT rule through which Firezone claims every DNS name.
pub mod commands;
pub mod nrpt;
pub mod resolvers;
pub mod text;
