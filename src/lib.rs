//! Multi-speaker voice capture core: per-speaker packet admission, PCM
//! normalisation, speaker session bookkeeping with exactly-once
//! finalisation, and the accounting of the blocking inference pool.
pub mod botlists;
pub mod bridge;
pub mod pool;
pub mod registry;
pub mod resample;
pub mod sequencer;
pub mod text;
pub mod window;
