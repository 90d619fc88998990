//! Host-side control harness for running compiled embedded firmware
//! ("sketches") against a virtual microcontroller board.
//!
//! The crate models the board lifecycle (configure, attach, run,
//! suspend/resume, terminate/reset), typed accessors for the simulated
//! peripherals (GPIO pins, UART channels, frame buffers), and the
//! single-shot toolchain pipeline that builds a sketch while streaming
//! its build log. The simulation backend itself is an in-memory model:
//! firmware behaviour enters it through the session's firmware face,
//! driven by the embedding harness.

pub mod backend;
pub mod board;
pub mod board_config;
pub mod board_view;
pub mod sketch;
pub mod sketch_config;
pub mod toolchain;
pub mod uuid;
