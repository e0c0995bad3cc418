//! Safe access for a host to the linear memory of a sandboxed guest, and
//! the definitions from which the host-side types and trampolines for an
//! interface description are written out.
//!
//! The access layer checks every access against the bounds of the guest
//! buffer and the alignment of the type, checks that the bytes it reads
//! stand for a value of the type, and keeps a ledger of the regions that
//! the host holds raw references into.

pub mod region;
pub mod error;
pub mod display;
pub mod memory;
mod sealed;
pub mod pointer;
pub mod guest_type;
pub mod primitives;
pub mod borrow;
pub mod string;
pub mod record;
pub mod generate;
pub mod mem_area;
pub mod ctx;

pub use crate::borrow::GuestBorrows;
pub use crate::error::GuestError;
pub use crate::guest_type::{GuestErrorType, GuestType, GuestTypeTransparent};
pub use crate::ctx::{Errno, WasiCtx};
pub use crate::mem_area::{MemArea, MemSet};
pub use crate::memory::{BufferMemory, GuestMemory, HostMemory};
pub use crate::pointer::{GuestPtr, Pointee, RawSlice};
pub use crate::region::Region;
pub use crate::string::{GuestString, GuestStringRef};
