//! Configuration records: the structured service/stub/agent definitions
//! that the supervision core consumes.
//!
//! Loading these from a file and watching that file for changes is an I/O
//! concern that lives outside this crate; the core only reads the records.

use vstd::prelude::*;

verus! {

/// Whether and how a process is restarted after it exits: `cooloff` is the
/// delay in seconds before an automatic restart, `max_restarts` caps how
/// many automatic restarts are attempted.
#[derive(Debug, Clone, Copy, PartialEq, Eq, Structural)]
pub struct RestartPolicy {
    pub enabled: bool,
    pub cooloff: u64,
    pub max_restarts: u32,
}

impl Default for RestartPolicy {
    /// Restarts are disabled unless the configuration enables them.
    fn default() -> (r: RestartPolicy)
        ensures
            r == (RestartPolicy { enabled: false, cooloff: 0, max_restarts: 0 }),
    {
        RestartPolicy { enabled: false, cooloff: 0, max_restarts: 0 }
    }
}

/// A supervised service: either a container image or a local command line,
/// with an environment and a restart policy. The name is the unique key.
#[derive(Debug, Clone)]
pub struct Service {
    pub name: String,
    pub display: Option<String>,
    pub image: Option<String>,
    pub command: Option<String>,
    pub directory: Option<String>,
    pub environment: Vec<(String, String)>,
    pub dependencies: Vec<String>,
    pub restart: RestartPolicy,
}

/// A lightweight placeholder process: the same shape as a service, minus
/// restart policy and dependencies.
#[derive(Debug, Clone)]
pub struct Stub {
    pub name: String,
    pub display: Option<String>,
    pub image: Option<String>,
    pub command: Option<String>,
    pub directory: Option<String>,
    pub environment: Vec<(String, String)>,
}

/// An agent definition; currently an inert placeholder.
#[derive(Debug, Clone)]
pub struct Agent {
    pub name: String,
    pub display: Option<String>,
    pub scenario: String,
}

/// The whole configuration document.
#[derive(Debug, Clone)]
pub struct ProcliConfig {
    pub services: Vec<Service>,
    pub stubs: Vec<Stub>,
    pub agents: Vec<Agent>,
    pub log_buffer_size: usize,
}

impl ProcliConfig {
    /// The first service with the given name, if any.
    pub fn get_service<'a>(&'a self, name: &str) -> (r: Option<&'a Service>)
        ensures
            match r {
                Some(s) => exists|i: int|
                    0 <= i < self.services@.len() && *s == self.services@[i]
                        && self.services@[i].name@ == name@ && (forall|j: int|
                        0 <= j < i ==> self.services@[j].name@ != name@),
                None => forall|i: int|
                    0 <= i < self.services@.len() ==> self.services@[i].name@ != name@,
            },
    {
        let mut i: usize = 0;
        while i < self.services.len()
            invariant
                i <= self.services@.len(),
                forall|j: int| 0 <= j < i ==> self.services@[j].name@ != name@,
            decreases self.services@.len() - i,
        {
            if crate::text::str_eq(self.services[i].name.as_str(), name) {
                assert(self.services@[i as int].name@ == name@);
                return Some(&self.services[i]);
            }
            i += 1;
        }
        None
    }

    /// The first stub with the given name, if any.
    pub fn get_stub<'a>(&'a self, name: &str) -> (r: Option<&'a Stub>)
        ensures
            match r {
                Some(s) => exists|i: int|
                    0 <= i < self.stubs@.len() && *s == self.stubs@[i] && self.stubs@[i].name@
                        == name@ && (forall|j: int|
                        0 <= j < i ==> self.stubs@[j].name@ != name@),
                None => forall|i: int|
                    0 <= i < self.stubs@.len() ==> self.stubs@[i].name@ != name@,
            },
    {
        let mut i: usize = 0;
        while i < self.stubs.len()
            invariant
                i <= self.stubs@.len(),
                forall|j: int| 0 <= j < i ==> self.stubs@[j].name@ != name@,
            decreases self.stubs@.len() - i,
        {
            if crate::text::str_eq(self.stubs[i].name.as_str(), name) {
                assert(self.stubs@[i as int].name@ == name@);
                return Some(&self.stubs[i]);
            }
            i += 1;
        }
        None
    }

    /// The first agent with the given name, if any.
    pub fn get_agent<'a>(&'a self, name: &str) -> (r: Option<&'a Agent>)
        ensures
            match r {
                Some(a) => exists|i: int|
                    0 <= i < self.agents@.len() && *a == self.agents@[i] && self.agents@[i].name@
                        == name@ && (forall|j: int|
                        0 <= j < i ==> self.agents@[j].name@ != name@),
                None => forall|i: int|
                    0 <= i < self.agents@.len() ==> self.agents@[i].name@ != name@,
            },
    {
        let mut i: usize = 0;
        while i < self.agents.len()
            invariant
                i <= self.agents@.len(),
                forall|j: int| 0 <= j < i ==> self.agents@[j].name@ != name@,
            decreases self.agents@.len() - i,
        {
            if crate::text::str_eq(self.agents[i].name.as_str(), name) {
                assert(self.agents@[i as int].name@ == name@);
                return Some(&self.agents[i]);
            }
            i += 1;
        }
        None
    }

    /// Whether any service, stub or agent carries the given name.
    pub fn contains(&self, name: &str) -> (r: bool)
        ensures
            r == ((exists|i: int|
                0 <= i < self.services@.len() && self.services@[i].name@ == name@) || (exists|
                i: int,
            |
                0 <= i < self.stubs@.len() && self.stubs@[i].name@ == name@) || (exists|i: int|
                0 <= i < self.agents@.len() && self.agents@[i].name@ == name@)),
    {
        self.get_service(name).is_some() || self.get_stub(name).is_some() || self.get_agent(
            name,
        ).is_some()
    }
}

/// The log-line capacity used when the configuration names none.
pub fn default_log_buffer_size() -> (r: usize)
    ensures
        r == 10000,
{
    10_000
}

} // verus!
