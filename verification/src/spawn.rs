//! The spawn of a driver, one step at a time.
//!
//! A spawn needs three things of the operating system: a port, a process, and
//! a little time. The library cannot ask for any of them. Each state of a
//! spawn says what is needed next, takes what the operating system answered,
//! and gives the next state or the error. A state is used up by its answer, so
//! that no step is taken twice and none is left out.

use vstd::prelude::*;
use vstd::string::*;

use crate::builder::{ChromeDriverBuilder, Config};
use crate::decimal::{append_decimal, decimal};
use crate::driver::{base_url, lemma_base_url_injective, ChromeDriver, Handle};
use crate::error::Error;

verus! {

/// A configuration and the port in question for it.
pub struct Target {
    /// What the builder was told.
    pub config: Config,
    /// The port that is being checked, or that the driver will be given.
    pub port: u16,
}

/// A configuration, the port its driver was given, and the process created.
pub struct Started {
    /// What the builder was told.
    pub config: Config,
    /// The port that the driver was given.
    pub port: u16,
    /// The process id of the driver.
    pub child: u32,
}

/// What a spawn asks first.
pub enum Step {
    /// Whether the target's port is free.
    Check(Target),
    /// A free port, whichever.
    Pick(Config),
}

/// The argument that tells the driver to listen on `port`.
pub open spec fn port_argument(port: u16) -> Seq<char> {
    "--port="@ + decimal(port as nat)
}

impl Config {
    /// A fixed port is checked; otherwise a port is picked.
    pub open spec fn first_step(self) -> Step {
        match self.fixed_port() {
            Some(port) => Step::Check(Target { config: self, port }),
            None => Step::Pick(self),
        }
    }

    /// The port that the operating system assigned is the driver's; where it
    /// had none, the spawn fails.
    pub open spec fn picked(self, assigned: Option<u16>) -> Result<Target, Error> {
        match assigned {
            Some(port) => Ok(Target { config: self, port }),
            None => Err(Error::PortUnavailable),
        }
    }
}

impl Target {
    /// A free port is the driver's; with a bound one the spawn fails.
    pub open spec fn checked(self, free: bool) -> Result<Target, Error> {
        if free {
            Ok(self)
        } else {
            Err(Error::PortUnavailable)
        }
    }

    /// A process that was created is waited for; where none was, the spawn
    /// fails.
    pub open spec fn launched(self, child: Option<u32>) -> Result<Started, Error> {
        match child {
            Some(child) => Ok(Started { config: self.config, port: self.port, child }),
            None => Err(Error::SpawnError),
        }
    }
}

impl Started {
    /// The handle to the driver once it has had time to start.
    pub open spec fn ready(self) -> Handle {
        Handle {
            child: self.child,
            url: base_url(self.port),
            kill_on_drop: self.config.kill_on_drop,
        }
    }
}

/// What the operating system answers in the course of one spawn.
pub struct Answers {
    /// Whether the port is free, where one is checked.
    pub port_free: bool,
    /// The port that is assigned, if any, where one is picked.
    pub assigned: Option<u16>,
    /// The process that is created, if any, where one is launched.
    pub child: Option<u32>,
}

impl Config {
    /// The port that a spawn arrives at, or the error that ends it before
    /// any process is asked for.
    pub open spec fn resolved(self, answers: Answers) -> Result<Target, Error> {
        match self.first_step() {
            Step::Check(target) => target.checked(answers.port_free),
            Step::Pick(config) => config.picked(answers.assigned),
        }
    }

    /// A whole spawn: the steps in their order, each with its answer, up to
    /// the handle or to the first error.
    pub open spec fn spawned(self, answers: Answers) -> Result<Handle, Error> {
        match self.resolved(answers) {
            Ok(target) => match target.launched(answers.child) {
                Ok(started) => Ok(started.ready()),
                Err(error) => Err(error),
            },
            Err(error) => Err(error),
        }
    }
}

/// A spawn on a port of the caller's own choice succeeds where that port is
/// free and the process can be created, and the handle's URL names that port.
pub proof fn lemma_free_port_is_served(config: Config, port: u16, answers: Answers)
    requires
        config.port == Some(port),
        port != 0,
        answers.port_free,
        answers.child is Some,
    ensures
        config.spawned(answers) == Ok::<Handle, Error>(
            Handle {
                child: answers.child->0,
                url: base_url(port),
                kill_on_drop: config.kill_on_drop,
            },
        ),
{
}

/// A spawn on a port of the caller's own choice fails with `PortUnavailable`
/// where that port is bound, and gets to no process: whether one could have
/// been created is not even asked.
pub proof fn lemma_bound_port_is_refused(config: Config, port: u16, answers: Answers)
    requires
        config.port == Some(port),
        port != 0,
        !answers.port_free,
    ensures
        config.resolved(answers) == Err::<Target, Error>(Error::PortUnavailable),
        config.spawned(answers) == Err::<Handle, Error>(Error::PortUnavailable),
{
}

/// A spawn that has its port fails with `SpawnError` where the process
/// cannot be created.
pub proof fn lemma_failed_launch_is_reported(config: Config, answers: Answers)
    requires
        config.resolved(answers) is Ok,
        answers.child is None,
    ensures
        config.spawned(answers) == Err::<Handle, Error>(Error::SpawnError),
{
}

/// A spawn without a port of the caller's choice takes the port that the
/// operating system assigns: where the process can be created, the handle's
/// URL names that port.
pub proof fn lemma_assigned_port_is_served(config: Config, port: u16, answers: Answers)
    requires
        config.fixed_port() is None,
        answers.assigned == Some(port),
        answers.child is Some,
    ensures
        config.spawned(answers) == Ok::<Handle, Error>(
            Handle {
                child: answers.child->0,
                url: base_url(port),
                kill_on_drop: config.kill_on_drop,
            },
        ),
{
}

/// A spawn that fails leaves no process behind: it ended before a process
/// was asked for, or none could be created. Once there is a process, nothing
/// stands between it and its handle.
pub proof fn lemma_failure_leaves_no_process(config: Config, answers: Answers)
    requires
        config.spawned(answers) is Err,
    ensures
        config.resolved(answers) is Err || answers.child is None,
{
}

/// The handle that a spawn gives stands for the process that was created in
/// its course, and its URL is that of a driver on the local host.
pub proof fn lemma_handle_is_of_the_child(config: Config, answers: Answers)
    requires
        config.spawned(answers) is Ok,
    ensures
        answers.child == Some(config.spawned(answers)->Ok_0.child),
        config.spawned(answers)->Ok_0.well_formed(),
{
    let target = config.resolved(answers)->Ok_0;
    assert(config.spawned(answers)->Ok_0.url == base_url(target.port));
}

/// Two spawns of one configuration that leave the port to the operating
/// system and are assigned different ports give handles with different URLs.
/// So where the operating system assigns no port that a driver still holds,
/// no later handle has the URL of an earlier one.
pub proof fn lemma_assigned_ports_keep_urls_apart(config: Config, first: Answers, second: Answers)
    requires
        config.fixed_port() is None,
        config.spawned(first) is Ok,
        config.spawned(second) is Ok,
        first.assigned != second.assigned,
    ensures
        config.spawned(first)->Ok_0.url != config.spawned(second)->Ok_0.url,
{
    let one = config.resolved(first)->Ok_0.port;
    let other = config.resolved(second)->Ok_0.port;
    assert(first.assigned == Some(one));
    assert(second.assigned == Some(other));
    if base_url(one) == base_url(other) {
        lemma_base_url_injective(one, other);
    }
}

/// What becomes of a standard stream of the driver.
#[derive(Clone, Copy, Debug, PartialEq, Eq, Structural)]
pub enum Stdio {
    /// The stream is discarded.
    Null,
    /// The stream is that of the spawning process.
    Inherit,
    /// The stream is captured by the spawning process.
    Piped,
}

/// The invocation of a driver.
#[derive(Debug)]
pub struct Command {
    /// The program to run.
    pub program: String,
    /// Its one argument.
    pub argument: String,
    /// Its standard input.
    pub stdin: Stdio,
    /// Its standard output.
    pub stdout: Stdio,
    /// Its standard error.
    pub stderr: Stdio,
}

/// A span of time, in whole seconds and the nanoseconds beyond them.
#[derive(Clone, Copy, Debug, PartialEq, Eq, Structural)]
pub struct Delay {
    /// Whole seconds.
    pub secs: u64,
    /// Nanoseconds beyond the whole seconds.
    pub nanos: u32,
}

/// The time a driver is given to start listening: a second and a half,
/// whatever the configuration.
pub open spec fn startup_delay() -> Delay {
    Delay { secs: 1, nanos: 500_000_000 }
}

/// A spawn that has just begun: it needs a port.
#[derive(Debug)]
pub enum Spawn {
    /// The port that was asked for has to be checked.
    Check(PortCheck),
    /// The operating system has to assign a port.
    Pick(PortPick),
}

impl View for Spawn {
    type V = Step;

    open spec fn view(&self) -> Step {
        match self {
            Spawn::Check(check) => Step::Check(check@),
            Spawn::Pick(pick) => Step::Pick(pick@),
        }
    }
}

/// A spawn that waits to hear whether its port is free on the loopback
/// interface.
#[derive(Debug)]
pub struct PortCheck {
    builder: ChromeDriverBuilder,
    port: u16,
}

impl View for PortCheck {
    type V = Target;

    closed spec fn view(&self) -> Target {
        Target { config: self.builder@, port: self.port }
    }
}

/// A spawn that waits for a port: the operating system is to bind port 0 on
/// the loopback interface, read back the port it assigned, and release it.
#[derive(Debug)]
pub struct PortPick {
    builder: ChromeDriverBuilder,
}

impl View for PortPick {
    type V = Config;

    closed spec fn view(&self) -> Config {
        self.builder@
    }
}

/// A spawn that has its port and waits for the driver process to be created.
#[derive(Debug)]
pub struct Launch {
    builder: ChromeDriverBuilder,
    port: u16,
}

impl View for Launch {
    type V = Target;

    closed spec fn view(&self) -> Target {
        Target { config: self.builder@, port: self.port }
    }
}

/// A spawn whose process runs and is given time to start listening.
#[derive(Debug)]
pub struct Startup {
    builder: ChromeDriverBuilder,
    port: u16,
    child: u32,
}

impl View for Startup {
    type V = Started;

    closed spec fn view(&self) -> Started {
        Started { config: self.builder@, port: self.port, child: self.child }
    }
}

impl ChromeDriverBuilder {
    /// Begins the spawn: says whether a port has to be checked or picked.
    pub fn spawn(self) -> (spawn: Spawn)
        ensures
            spawn@ == self@.first_step(),
    {
        match self.requested_port() {
            Some(port) => {
                if port == 0 {
                    Spawn::Pick(PortPick { builder: self })
                } else {
                    Spawn::Check(PortCheck { builder: self, port })
                }
            },
            None => Spawn::Pick(PortPick { builder: self }),
        }
    }
}

impl PortCheck {
    #[verifier::type_invariant]
    spec fn port_is_the_fixed_one(&self) -> bool {
        self@.config.fixed_port() == Some(self@.port)
    }

    /// The port to check: the one that the builder was told, which is not 0.
    pub fn port(&self) -> (port: u16)
        ensures
            port == self@.port,
            self@.config.fixed_port() == Some(port),
    {
        proof {
            use_type_invariant(self);
        }
        self.port
    }

    /// Takes the answer: whether the port is free. A free port lets the
    /// spawn go on; a bound one ends it.
    pub fn checked(self, free: bool) -> (next: Result<Launch, Error>)
        ensures
            match next {
                Ok(launch) => self@.checked(free) == Ok::<Target, Error>(launch@),
                Err(error) => self@.checked(free) == Err::<Target, Error>(error),
            },
    {
        if free {
            Ok(Launch { builder: self.builder, port: self.port })
        } else {
            Err(Error::PortUnavailable)
        }
    }
}

impl PortPick {
    #[verifier::type_invariant]
    spec fn no_port_is_fixed(&self) -> bool {
        self@.fixed_port() is None
    }

    /// Takes the answer: the port that was assigned, if one was. With a
    /// port the spawn goes on; without one it ends.
    pub fn picked(self, assigned: Option<u16>) -> (next: Result<Launch, Error>)
        ensures
            self@.fixed_port() is None,
            match next {
                Ok(launch) => self@.picked(assigned) == Ok::<Target, Error>(launch@),
                Err(error) => self@.picked(assigned) == Err::<Target, Error>(error),
            },
    {
        proof {
            use_type_invariant(&self);
        }
        match assigned {
            Some(port) => Ok(Launch { builder: self.builder, port }),
            None => Err(Error::PortUnavailable),
        }
    }
}

impl Launch {
    /// The port that the driver is told to listen on.
    pub fn port(&self) -> (port: u16)
        ensures
            port == self@.port,
    {
        self.port
    }

    /// The process to create: the configured binary, told its port by its
    /// one argument, with all three standard streams discarded.
    pub fn command(&self) -> (command: Command)
        ensures
            command.program@ == self@.config.driver_binary,
            command.argument@ == port_argument(self@.port),
            command.stdin == Stdio::Null,
            command.stdout == Stdio::Null,
            command.stderr == Stdio::Null,
    {
        let mut argument = String::from_str("--port=");
        append_decimal(&mut argument, self.port);
        Command {
            program: String::from_str(self.builder.driver_binary()),
            argument,
            stdin: Stdio::Null,
            stdout: Stdio::Null,
            stderr: Stdio::Null,
        }
    }

    /// Takes the answer: the id of the process that was created, if one
    /// was. With a process the spawn goes on; without one it ends.
    pub fn launched(self, child: Option<u32>) -> (next: Result<Startup, Error>)
        ensures
            match next {
                Ok(startup) => self@.launched(child) == Ok::<Started, Error>(startup@),
                Err(error) => self@.launched(child) == Err::<Started, Error>(error),
            },
    {
        match child {
            Some(child) => Ok(Startup { builder: self.builder, port: self.port, child }),
            None => Err(Error::SpawnError),
        }
    }
}

impl Startup {
    /// How long to wait, once and without looking at the driver, before it
    /// is taken to be listening.
    pub fn delay(&self) -> (delay: Delay)
        ensures
            delay == startup_delay(),
    {
        Delay { secs: 1, nanos: 500_000_000 }
    }

    /// Takes the answer: the delay has passed. The spawn is complete.
    pub fn ready(self) -> (driver: ChromeDriver)
        ensures
            driver@ == self@.ready(),
    {
        ChromeDriver::running(self.child, self.port, self.builder.kills_on_drop())
    }
}

} // verus!
