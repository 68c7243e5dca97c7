//! Verified core of a minimal windowed renderer: a fixed quad mesh, a
//! trivial shader pair with compile diagnostics, and the decisions of a
//! capped-rate render loop. The windowing and graphics calls themselves
//! live outside the library; everything the program decides or computes
//! is here, with contracts.

pub mod config;
pub mod geometry;
pub mod render_loop;
pub mod shader;
