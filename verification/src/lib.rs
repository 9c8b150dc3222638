//! Orchestration logic for viewing encrypted "resdesc" files.
//!
//! A resdesc file is decrypted by an external vendor tool that a shell
//! invokes as a subprocess. This library holds everything that can be
//! decided without touching the machine: which step comes next, how the
//! tool's events are judged, how the output file's name is derived from
//! the source path, and what each failure means. The shell performs the
//! steps (directory creation, spawning, reading) and reports their
//! outcomes back as plain values.

pub mod content;
pub mod orchestrator;
pub mod paths;
pub mod startup;
