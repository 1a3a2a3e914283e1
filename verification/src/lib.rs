//! Access control and catalogue rules of a course platform: who may open a
//! course, which courses a learner holds, and which courses must be taken
//! before another.
//!
//! The rules keep two structures in order on top of a plain key/value store.
//! The access index ([`access`], [`model`], [`history`]) holds an access
//! record per user and course together with two lookup indices, and keeps
//! the three in agreement behind a write-through cache. The prerequisite
//! graph ([`graph`], [`search`], [`prerequisites`]) holds the prerequisites
//! of each course and stays free of cycles under any sequence of edits.
//! [`gate`] decides who may call what.
//!
//! Storage, cache, catalogue and the authority on administrators are
//! injected ([`store`], [`cache`], [`catalog`], [`gate`]); each comes with
//! an implementation in memory. Around this sit the rules for profiles
//! ([`profile`], [`users`]), administrators ([`admin`]), categories and
//! course removal ([`registry`]), and versions ([`versioning`]).

pub mod ids;
pub mod error;
pub mod keys;
mod slots;
pub mod store;
pub mod cache;
pub mod model;
pub mod access;
pub mod history;
pub mod graph;
pub mod catalog;
pub mod search;
pub mod gate;
pub mod prerequisites;
pub mod profile;
pub mod versioning;
pub mod admin;
pub mod users;
pub mod registry;
pub mod storage_utils;
