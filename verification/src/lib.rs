//! The core of a driver for a document store, for a host that has no notion
//! of the store's binary document format.
//!
//! * [`value`] holds the value model: every kind of value of the format,
//!   and the ordered document built from them.
//! * [`object`] holds the host's side: the dynamic objects that the driver
//!   reads and builds, and [`dispatch`] the order in which the runtime type
//!   of such an object is decided.
//! * [`convert`] maps values to host objects and back, and states what
//!   survives the round trip. [`binary_subtype`] does so for the subtype
//!   of binary data.
//! * [`document`] is the document as the host uses it: reads, writes and
//!   deletions by key, snapshots, and a single pass over the entries.
//! * [`cursor`] pages through a stream of records in two steps, advance and
//!   read, and leaves the round-trips to its caller. [`session`] is the
//!   discipline of a session that several operations share, and [`shared`]
//!   shows that cursors on one session take turns.
//! * [`index`] and [`results`] are the records of index descriptions and of
//!   outcomes; [`display`], [`text`], [`object_id`] and [`date_time`] hold
//!   the textual forms and the two kinds whose making needs the `bson` crate.

pub mod binary_subtype;
pub mod convert;
pub mod cursor;
pub mod date_time;
pub mod dispatch;
pub mod display;
pub mod document;
pub mod error;
pub mod index;
pub mod object;
pub mod object_id;
pub mod results;
pub mod session;
pub mod shared;
pub mod text;
pub mod value;
