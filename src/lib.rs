//! A recursive, multi-threaded file copy engine.
//!
//! The library holds the decisions of the copy: how a volume is classified,
//! how many workers a copy gets, the overwrite / update procedure and the
//! chunked transfer of a single file, and the per-directory dispatch with its
//! pending-work counter. The caller performs the file-system work that each
//! step asks for and reports back.
use vstd::prelude::*;

pub mod config;
pub mod storage;
pub mod threads;
pub mod engine;
pub mod dispatch;
pub mod orchestrate;
