//! Build-time content compiler for a structured profile document.
//!
//! From one immutable in-memory document the library derives, as pure
//! verified text generation: a set of typed constant tables mirroring the
//! document, build-provenance constants with safe fallbacks and a
//! change-gated write decision, and a typeset markup document.  All file
//! and subprocess work stays outside the library; every function here is
//! a pure function of its arguments.

#![allow(unused_imports)]

pub mod card;
pub mod contributions;
pub mod escape;
pub mod literal;
pub mod model;
pub mod pipeline;
pub mod provenance;
pub mod render;
pub mod tables;
pub mod text;

use vstd::prelude::*;
