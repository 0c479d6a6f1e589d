//! Running the test suite of one contract, with warnings while it is slow.
//!
//! A suite is put together by a [`builder::TestSuiteBuilder`] and started
//! with [`suite::TestSuite::run`], which gives it up for two tasks. The
//! [`watchdog::Watchdog`] wakes after every timeout and warns for as long
//! as the suite is still running; the [`suite::Worker`] reports how the
//! execution ended. Both speak in [`event::RunEvent`]s, each of which
//! carries the id of its suite.
//!
//! The library decides and does nothing else: to sleep, to execute the
//! tests, to send an event and to share the flag between the tasks is left
//! to the caller. [`protocol`] states what the caller's channel then holds,
//! whatever the order of the tasks' steps, and [`pool`] states it for
//! several suites on one channel.

pub mod builder;
pub mod chain;
pub mod event;
pub mod pool;
pub mod protocol;
pub mod span;
pub mod suite;
pub mod watchdog;
