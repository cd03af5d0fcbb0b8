//! The handle to a running driver.

use vstd::prelude::*;
use vstd::string::*;

use crate::builder::ChromeDriverBuilder;
use crate::decimal::{append_decimal, decimal, lemma_decimal_injective};
use crate::spawn::{Spawn, Step};

verus! {

/// The address at which a driver listening on `port` is reached.
pub open spec fn base_url(port: u16) -> Seq<char> {
    "http://localhost:"@ + decimal(port as nat)
}

/// A URL names one port: drivers on different ports are reached at
/// different addresses.
pub proof fn lemma_base_url_injective(a: u16, b: u16)
    requires
        base_url(a) == base_url(b),
    ensures
        a == b,
{
    let prefix = "http://localhost:"@;
    let len = prefix.len() as int;
    assert(base_url(a).subrange(len, base_url(a).len() as int) == decimal(a as nat));
    assert(base_url(b).subrange(len, base_url(b).len() as int) == decimal(b as nat));
    lemma_decimal_injective(a as nat, b as nat);
}

/// What a handle stands for: a process, the address it serves, and whether
/// it dies with the handle.
pub struct Handle {
    /// The process id of the driver.
    pub child: u32,
    /// The base URL of the driver.
    pub url: Seq<char>,
    /// Whether releasing the handle kills the process.
    pub kill_on_drop: bool,
}

/// What is owed to the driver process when its handle is released.
#[derive(Clone, Copy, Debug, PartialEq, Eq, Structural)]
pub enum Release {
    /// Kill the process with this id, and ignore a failure to do so.
    Kill(u32),
    /// Leave the process running.
    Leave,
}

impl Handle {
    /// The URL is that of a driver on some port of the local host.
    pub open spec fn well_formed(self) -> bool {
        exists|port: u16| self.url == base_url(port)
    }

    /// What releasing the handle asks for.
    pub open spec fn release(self) -> Release {
        if self.kill_on_drop {
            Release::Kill(self.child)
        } else {
            Release::Leave
        }
    }
}

/// A `chromedriver` process that was spawned and given time to start.
#[derive(Debug)]
pub struct ChromeDriver {
    child: u32,
    url: String,
    kill_on_drop: bool,
}

impl View for ChromeDriver {
    type V = Handle;

    closed spec fn view(&self) -> Handle {
        Handle { child: self.child, url: self.url@, kill_on_drop: self.kill_on_drop }
    }
}

impl ChromeDriver {
    #[verifier::type_invariant]
    spec fn url_is_local(&self) -> bool {
        self@.well_formed()
    }

    /// The handle to the process `child`, which listens on `port`.
    pub(crate) fn running(child: u32, port: u16, kill_on_drop: bool) -> (driver: Self)
        ensures
            driver@ == (Handle { child, url: base_url(port), kill_on_drop }),
    {
        let mut url = String::from_str("http://localhost:");
        append_decimal(&mut url, port);
        assert(url@ == base_url(port));
        ChromeDriver { child, url, kill_on_drop }
    }

    /// Begins the spawn of `chromedriver` from the search path, with every
    /// setting at its default.
    pub fn spawn() -> (spawn: Spawn)
        ensures
            spawn@ == Step::Pick(ChromeDriverBuilder::default_config()),
    {
        ChromeDriverBuilder::default().spawn()
    }

    /// A builder with every setting at its default.
    pub fn build() -> (builder: ChromeDriverBuilder)
        ensures
            builder@ == ChromeDriverBuilder::default_config(),
    {
        ChromeDriverBuilder::default()
    }

    /// The base URL of the driver.
    pub fn url(&self) -> (url: &str)
        ensures
            url@ == self@.url,
            self@.well_formed(),
    {
        proof {
            use_type_invariant(self);
        }
        self.url.as_str()
    }

    /// The process id of the driver.
    pub fn child(&self) -> (child: u32)
        ensures
            child == self@.child,
    {
        self.child
    }

    /// What is owed to the process now that the handle is let go: to kill it
    /// where that was asked for, and to leave it alone where not.
    pub fn release(&self) -> (release: Release)
        ensures
            release == self@.release(),
    {
        if self.kill_on_drop {
            Release::Kill(self.child)
        } else {
            Release::Leave
        }
    }
}

} // verus!
