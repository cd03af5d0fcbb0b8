//! Configuration of a driver before it is spawned.

use vstd::prelude::*;
use vstd::string::*;

verus! {

/// What a builder has been told: the binary to run, the port to listen on,
/// and whether the process dies with its handle.
pub struct Config {
    /// The program to run, as a path or as a name to look up in the search path.
    pub driver_binary: Seq<char>,
    /// The port asked for, if any.
    pub port: Option<u16>,
    /// Whether releasing the handle kills the process.
    pub kill_on_drop: bool,
}

impl Config {
    /// The port the driver has to listen on, where the caller insists on one.
    /// Port 0 leaves the choice to the operating system, as no port does.
    pub open spec fn fixed_port(self) -> Option<u16> {
        match self.port {
            Some(p) => if p == 0 {
                None
            } else {
                Some(p)
            },
            None => None,
        }
    }
}

/// The name under which the driver is looked up when no path is given.
pub open spec fn default_binary() -> Seq<char> {
    "chromedriver"@
}

/// Collects the settings for a driver process.
#[derive(Debug)]
pub struct ChromeDriverBuilder {
    driver_binary: String,
    port: Option<u16>,
    kill_on_drop: bool,
}

impl View for ChromeDriverBuilder {
    type V = Config;

    closed spec fn view(&self) -> Config {
        Config {
            driver_binary: self.driver_binary@,
            port: self.port,
            kill_on_drop: self.kill_on_drop,
        }
    }
}

impl ChromeDriverBuilder {
    /// The settings of a builder that was told nothing.
    pub open spec fn default_config() -> Config {
        Config { driver_binary: default_binary(), port: None, kill_on_drop: true }
    }

    /// A builder for the driver at `path`, on a port of the operating
    /// system's choosing, killed when its handle is released.
    pub fn new(path: &str) -> (builder: Self)
        ensures
            builder@ == (Config { driver_binary: path@, port: None, kill_on_drop: true }),
    {
        ChromeDriverBuilder { driver_binary: String::from_str(path), port: None, kill_on_drop: true }
    }

    /// Asks for `port`. Port 0 asks for any free port.
    pub fn port(self, port: u16) -> (builder: Self)
        ensures
            builder@ == (Config { port: Some(port), ..self@ }),
    {
        let mut builder = self;
        builder.port = Some(port);
        builder
    }

    /// Sets whether the process is killed when its handle is released.
    pub fn kill_on_drop(self, kill: bool) -> (builder: Self)
        ensures
            builder@ == (Config { kill_on_drop: kill, ..self@ }),
    {
        let mut builder = self;
        builder.kill_on_drop = kill;
        builder
    }

    /// The program that will be run.
    pub fn driver_binary(&self) -> (path: &str)
        ensures
            path@ == self@.driver_binary,
    {
        self.driver_binary.as_str()
    }

    /// The port that was asked for, if any.
    pub fn requested_port(&self) -> (port: Option<u16>)
        ensures
            port == self@.port,
    {
        self.port
    }

    /// Whether the process is killed when its handle is released.
    pub fn kills_on_drop(&self) -> (kill: bool)
        ensures
            kill == self@.kill_on_drop,
    {
        self.kill_on_drop
    }
}

impl Default for ChromeDriverBuilder {
    /// A builder that expects `chromedriver` in the search path.
    fn default() -> (builder: Self)
        ensures
            builder@ == ChromeDriverBuilder::default_config(),
    {
        ChromeDriverBuilder::new("chromedriver")
    }
}

} // verus!
