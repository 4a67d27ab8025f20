//! Core of a green-task I/O runtime over a callback-driven reactor.
//!
//! The reactor and the task executor are outside collaborators: this crate
//! holds, as verified state machines, the decisions that bridge the two
//! (parking and waking tasks, homing, access arbitration, timeouts, stream
//! and request bookkeeping), and the plain-value conversions that the
//! operations need.

pub mod access;
pub mod async_handle;
pub mod error;
pub mod event_loop;
pub mod fs;
pub mod homing;
pub mod idle;
pub mod net;
pub mod pipe;
pub mod queue;
pub mod raw;
pub mod signal;
pub mod stream;
pub mod tcp;
pub mod task;
pub mod timeout;
pub mod timer;
pub mod tls;
pub mod tty;
pub mod udp;

pub use async_handle::Async;
pub use error::{UvError, UvResult};
pub use event_loop::{BorrowedEventLoop, EventLoop};
pub use fs::File;
pub use idle::Idle;
pub use net::get_host_addresses_on;
pub use pipe::{Pipe, PipeAcceptor, PipeListener};
pub use signal::Signal;
pub use tcp::{Tcp, TcpAcceptor, TcpListener};
pub use timer::Timer;
pub use tty::Tty;
pub use udp::Udp;
pub use task::{BlockedTask, block, unblock, wakeup, ForbidUnwind};
