//! Supervision of a locally spawned `chromedriver` process, with the operating
//! system kept at arm's length: the library decides, its caller performs.
//!
//! A [`ChromeDriverBuilder`] collects the binary, the port and whether the
//! process dies with its handle. Its `spawn` begins a [`Spawn`], which is
//! carried forward one answer at a time: a port that is free or was assigned,
//! a process that was created, a delay that has passed. What comes out is a
//! [`ChromeDriver`], which knows the URL of the driver and says, when it is
//! released, whether the process is to be killed.
//!
//! Nothing in here touches a socket, a process or a clock. The caller binds
//! the port, runs the [`Command`], sleeps for the [`Delay`] and signals the
//! process, and tells the library how each of them went.

pub mod builder;
pub mod decimal;
pub mod driver;
pub mod error;
pub mod spawn;

pub use builder::ChromeDriverBuilder;
pub use driver::{ChromeDriver, Release};
pub use error::Error;
pub use spawn::{Command, Delay, Launch, PortCheck, PortPick, Spawn, Startup, Stdio};
