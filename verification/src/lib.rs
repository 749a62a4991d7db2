//! Safe, verified decision layer for a binding to the libfceux NES emulator
//! core.
//!
//! The native core owns all emulation state and exposes a C interface that
//! supports a single live instance per process.  Everything that can be
//! decided without calling the native code lives here and is verified:
//! the process-wide exclusivity state machine, the conversion of native
//! status codes into typed errors, the check that a ROM path is
//! representable in the native encoding, the CPU status-register flag
//! accessors, and the fixed video frame geometry.  The unverifiable FFI
//! shell around the native core sits outside this crate and consults these
//! functions for every decision it makes.

mod error;
mod frame;
mod lifecycle;
mod memory;
mod path;
mod regs;
mod snapshot;

pub use error::Error;
pub use error::ErrorKind;
pub use error::status_to_result;
pub use frame::frame_height;
pub use frame::frame_pixel_count;
pub use frame::frame_width;
pub use frame::spec_frame_height;
pub use frame::spec_frame_pixel_count;
pub use frame::spec_frame_width;
pub use lifecycle::Lifecycle;
pub use lifecycle::lemma_create_after_destroy;
pub use lifecycle::lemma_second_create_refused;
pub use memory::MemoryDomain;
pub use path::bytes_nul_free;
pub use path::check_path;
pub use path::spec_nul_free;
pub use regs::RegP;
pub use snapshot::Snapshot;
pub use snapshot::snapshot_create;
