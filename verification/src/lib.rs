//! A verified core for a scheduled webhook notifier: it computes when the
//! next notification is due from a time of day, an interval in days and an
//! optional first-execution date, decides on each polling tick whether to
//! fire, and builds the message that a cycle delivers.

pub mod civil;
pub mod message;
pub mod parse;
pub mod schedule;
