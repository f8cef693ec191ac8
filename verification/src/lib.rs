//! The synchronisation and credential engine of a personal finance tracker.
//!
//! Transactions, categories and accounts are kept locally and exchanged with
//! a remote store in deltas; the tokens that authorise the exchange are kept
//! encrypted at rest. The engine decides and the application acts: every
//! call to the remote service, to the disk and to the database is made by the
//! application, which hands the engine what it read and carries out what the
//! engine planned.
//!
//! The credential store:
//! - [`crypto`] derives the key of the device and seals and opens secrets;
//! - [`token`] tells whether an access token is past its time;
//! - [`auth`] holds the stored credentials and the decisions of signing in,
//!   refreshing and signing out;
//! - [`device`] makes the identifier of a device that has none of its own.
//!
//! The synchronisation:
//! - [`models`], [`record`] and [`binary64`] hold the rows, the change
//!   records and the numbers in them;
//! - [`store`] is the local record store as the engine sees it, and [`plan`]
//!   the changes to it as a list of steps;
//! - [`collector`] turns the rows that wait into change records;
//! - [`applier`] turns pulled records into steps, in the order that
//!   [`apply_order`] proves of them;
//! - [`acknowledge`] marks the rows that were pushed;
//! - [`checkpoint`] holds the position of the pull;
//! - [`sync`] runs a cycle from start to end.
//!
//! The browser bridge: [`session`], [`web_server`], [`shared_auth`] and
//! [`shared_sync`].

pub mod acknowledge;
pub mod applier;
pub mod apply_order;
pub mod auth;
pub mod binary64;
pub mod calendar;
pub mod checkpoint;
pub mod collector;
pub mod crypto;
pub mod device;
pub mod error;
pub mod hexadecimal;
pub mod models;
pub mod plan;
pub mod random;
pub mod record;
pub mod session;
pub mod shared_auth;
pub mod shared_sync;
pub mod store;
pub mod sync;
pub mod sync_table_map;
pub mod text;
pub mod token;
pub mod web_server;
