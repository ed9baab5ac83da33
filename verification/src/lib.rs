//! Syscall driver capsules for ADC sampling, plus the supporting
//! hardware-interface layer: a CAN controller model and the random-number
//! HIL definitions.
//!
//! The core is the ADC subsystem: a fixed pool of three kernel sample
//! buffers, per-process bookkeeping for caller-supplied buffers, a sampling
//! state machine driven by commands and hardware completion callbacks, and
//! two syscall surfaces (one exclusive-owner, one virtualized).

pub mod adc;
pub mod app_buffer;
pub mod can;
pub mod errors;
pub mod grant;
pub mod pool;
pub mod rng;

use vstd::prelude::*;

verus! {

/// Number of 16-bit samples each of the three kernel DMA buffers holds.
/// The size is chosen somewhat arbitrarily but keeps up with buffer
/// swaps at high sampling frequencies.
pub const ADC_BUF_SAMPLES: usize = 128;

} // verus!
