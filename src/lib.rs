//! Decision logic for bringing up a GPU context that decodes H.264 video in
//! hardware and presents the decoded pictures: device and queue selection,
//! video profile negotiation, decoded-picture-buffer slot management, and the
//! per-frame cross-queue submission protocol.
//!
//! Everything here works on plain values reported by the driver; the calls
//! into the GPU API are made by the caller, which hands the results in.
use vstd::prelude::*;

pub mod flags;
pub mod memory;
pub mod error;
pub mod device;
pub mod profile;
pub mod registry;
pub mod dpb;
pub mod marking;
pub mod session;
pub mod submit;
pub mod present;
pub mod stream;
