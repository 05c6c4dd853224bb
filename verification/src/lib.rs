#![allow(non_snake_case)]
#![allow(non_camel_case_types)]
#![allow(clippy::new_without_default)]

pub mod registers;
pub mod state;
pub mod cpu;
pub mod alu;
pub mod semantics;
pub mod instructions;
pub mod decode;
pub mod execute;
pub mod laws;
pub mod utils;
pub mod video;
pub mod audio;
pub mod logging;

pub use cpu::Cpu as SharpLr35902;
