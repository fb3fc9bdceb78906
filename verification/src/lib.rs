//! Core rules of a meeting-scheduling service.
//!
//! Organizers propose a meeting with candidate dates, participants join and
//! vote on the dates, and comments attach to the meeting. This crate holds the
//! parts whose correctness rests on invariants: rebuilding the meeting
//! aggregate from an outer-joined row set, and the all-or-nothing write
//! workflows. Storage and transport stay with the caller: the workflows are
//! state machines that say which statement to run next and take the store's
//! answer back.
//!
//! - [`ident`], [`calendar`] and [`vote`] hold the plain values: identifiers,
//!   dates and instants, and the answers to a proposed date.
//! - [`row`] classifies one joined row, and [`aggregate`] folds the rows into
//!   the aggregate; [`aggregate_laws`] says what holds of every aggregate.
//! - [`entity`] holds the users, meetings and comments that are persisted,
//!   each valid by construction.
//! - [`store`] names the requests to the store and its responses.
//!   [`create_meeting`], [`join_meeting`], [`post_comment`] and
//!   [`read_meeting`] are the workflows over them, and [`credentials`] is the
//!   check of a presented token. [`ledger`] is the model of the store against
//!   which the laws of the workflows are stated.
//! - [`response`] and [`disposition`] hold what the service answers with.

pub mod aggregate;
pub mod aggregate_laws;
pub mod calendar;
pub mod create_meeting;
pub mod credentials;
pub mod disposition;
pub mod entity;
pub mod ident;
pub mod join_meeting;
pub mod ledger;
pub mod post_comment;
pub mod read_meeting;
pub mod response;
pub mod row;
pub mod store;
pub mod vote;
