//! Core kernel loop and scheduling substrate for a small, statically
//! configured embedded operating system.
//!
//! The crate models the kernel of a single-core microcontroller OS that
//! multiplexes one hardware thread across kernel work (interrupt bottom
//! halves and deferred calls) and several mutually distrusting user
//! processes.  Hardware is represented by an explicit chip model
//! ([`chip::Chip`]), and the behaviour of each user program is represented
//! by a script of context-switch outcomes carried by its
//! [`process::Process`] entry, so that the whole scheduling substrate --
//! the main loop, the per-process execution routine, the syscall
//! dispatcher, the grant registry and the driver capsules -- is ordinary
//! verified code.

pub mod button;
pub mod capabilities;
pub mod chip;
pub mod cooperative;
pub mod errorcode;
pub mod grant;
pub mod ipc;
pub mod kernel;
pub mod memop;
pub mod platform;
pub mod process;
pub mod round_robin;
pub mod sched;
pub mod slice_share;
pub mod syscall;
pub mod upcall;
pub mod usb_user;
