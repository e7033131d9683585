//! Pulls the C library and the dynamic loader that a binary was built against
//! out of a container image.
//!
//! Nothing here runs the container tool. A download is a machine: it says
//! which call to make next, is handed what the call left behind, and says in
//! the end how it went. Whoever drives it makes the calls.
//!
//! - `text`: characters, lines, words and trimming.
//! - `dockerfile`: the image that a Dockerfile names, and the error type.
//! - `ldconfig`: the shared-library cache listing, read with `regex`.
//! - `container`: the calls of the container tool and their outcomes.
//! - `extract`: the copies that a listing decides on, and the report.
//! - `download`: creation, extraction and removal of the container.
//! - `runs`: what holds of every run of an extraction and of a download.
//! - `pwninit`: the steps that prepare a challenge directory.

pub mod container;
pub mod dockerfile;
pub mod download;
pub mod extract;
pub mod ldconfig;
pub mod pwninit;
pub mod runs;
pub mod text;
