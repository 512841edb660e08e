//! One worker of a media server.
//!
//! A worker stands between three tasks: the worker of an overlay network, the media cluster that
//! knows the rooms, and the WebRTC sessions. It takes in requests, packets and events, decides
//! which task each of them is for, and turns what the tasks put out into outputs of its own or
//! into calls on another task. It does no input or output and it runs no task: every step returns
//! the calls that are to be made, and whoever drives the worker makes them and hands back what
//! the tasks put out.
//!
//! - [`worker`] holds the worker, [`config`] what it is set up with;
//! - [`action`], [`net`], [`rpc`], [`sdn`], [`cluster`] and [`webrtc`] hold what it exchanges with
//!   the tasks and with the outside, [`payload`] names what it passes on unread;
//! - [`model`] says what each step does, [`outcomes`] what comes of each for those outside,
//!   [`calls`] which call is which step, [`laws`] what follows for the worker as a whole;
//! - [`text`] writes numbers out;
//! - [`outside`] is the boundary to other crates.
#![allow(unused_imports)]

pub mod action;
pub mod calls;
pub mod cluster;
pub mod config;
pub mod laws;
pub mod model;
pub mod net;
pub mod outcomes;
pub mod outside;
pub mod payload;
pub mod rpc;
pub mod sdn;
pub mod text;
pub mod webrtc;
pub mod worker;
