//! Core of a native library that an Android application host loads over JNI.
//!
//! The host sees two boundary methods: a signature probe that returns the hash
//! of the application's first signing certificate, and a parameter dispatcher
//! that routes a UTF-8 parameter name through a fixed keyword table to one of
//! a few hundred handlers.  Everything that can be stated as a function of
//! plain values lives here, verified: the keyword table and its routing rule,
//! the handler registry, the probe's step-by-step walk over the host bridge,
//! and the load hook's at-most-once installation of the logging sink.
//!
//! Host interaction itself (JNI calls, emitting log records) is performed by a
//! thin unverified boundary that feeds this core plain values and carries out
//! the requests and records it computes.

pub mod dispatch;
pub mod keywords;
pub mod lifecycle;
pub mod probe;
pub mod records;
pub mod registry;
