//! Core of a terminal application for viewing and editing a weekly
//! conference-call schedule.
//!
//! The crate holds the verified logic of the application: the cyclic
//! selection state machines used for navigation, the validated time-of-day
//! value, the day-bucketed schedule entity with its sort-on-write invariant,
//! the form and input-field editing state machines, and the action-dispatch
//! loop that routes key events and drains the action queue.  Terminal I/O,
//! rendering and persistence backends are collaborators that live outside
//! this crate; they exchange plain values with the functions here.

pub mod action;
pub mod app;
pub mod components;
pub mod digits;
pub mod entities;
pub mod event;
pub mod menu;
pub mod models;
pub mod persistence;
pub mod ui_components;
pub mod ui_fields;
pub mod ui_forms;
pub mod ui_pages;
pub mod utils;
