//! A small library for serving a fixed set of named, clickable actions
//! ("buttons") behind an HTTP endpoint. This crate holds the verified
//! dispatch core: the button and handler-shape model, the index-addressed
//! registry, the click dispatcher with its arity checks, the page renderer,
//! and the shutdown coordinator. The transport (routing, JSON, the listen
//! loop) is an unverified embedding concern and lives outside this crate.

pub mod button;
pub mod dispatch;
pub mod html_utils;
pub mod registry;
pub mod shutdown;
