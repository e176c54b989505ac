//! Recovering from memory allocation failure instead of aborting.
//!
//! The library holds the rules of an allocation-failure capture: the
//! failure value, the per-thread reserve of memory that unwinding draws
//! on, the allocator's answer when the default allocator fails, the panic
//! hook's verdict, and the state machine of the capture boundary. The
//! process-wide hooks and the allocator itself are installed by the
//! program around it.

pub mod capture;
pub mod error;
pub mod fmt;
pub mod layout;
pub mod reserve;
pub mod string;
pub mod text;
pub mod thread_state;

pub use crate::capture::{step, CaptureAction, CaptureEvent, CaptureState};
pub use crate::error::{AllocError, ReserveErrorKind};
pub use crate::fmt::{try_format, StrBuf};
pub use crate::reserve::{PanicMem, Slot};
pub use crate::string::TryToString;
pub use crate::thread_state::{PanicVerdict, ThreadPanic};
