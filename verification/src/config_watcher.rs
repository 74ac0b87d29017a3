//! Reloading of the configuration when its file changes.

use vstd::prelude::*;
use vstd::string::StringExecFns;

use crate::config::{EngineConfig, ExposureCheck};
use crate::metrics::CachePaddedAtomicU64;
use crate::text::str_eq;

verus! {

/// Why the configuration could not be watched or reloaded.
#[derive(Debug, Clone, PartialEq)]
pub enum ConfigWatcherError {
    Io(String),
    Parse(String),
    Validation(String),
    WatcherSetup(String),
    NoConfigFile,
}

impl ConfigWatcherError {
    pub open spec fn text(self) -> Seq<char> {
        match self {
            ConfigWatcherError::Io(msg) => "IO error: "@ + msg@,
            ConfigWatcherError::Parse(msg) => "Parse error: "@ + msg@,
            ConfigWatcherError::Validation(msg) => "Validation error: "@ + msg@,
            ConfigWatcherError::WatcherSetup(msg) => "Watcher setup: "@ + msg@,
            ConfigWatcherError::NoConfigFile => "No TOML config file found"@,
        }
    }

    pub fn to_text(&self) -> (s: String)
        ensures
            s@ == self.text(),
    {
        match self {
            ConfigWatcherError::Io(msg) => prefixed("IO error: ", msg.as_str()),
            ConfigWatcherError::Parse(msg) => prefixed("Parse error: ", msg.as_str()),
            ConfigWatcherError::Validation(msg) => prefixed("Validation error: ", msg.as_str()),
            ConfigWatcherError::WatcherSetup(msg) => prefixed("Watcher setup: ", msg.as_str()),
            ConfigWatcherError::NoConfigFile => "No TOML config file found".to_owned(),
        }
    }
}

fn prefixed(head: &str, msg: &str) -> (s: String)
    ensures
        s@ == head@ + msg@,
{
    let mut s = head.to_owned();
    s.append(msg);
    s
}

/// The error for a file that could not be read.
pub fn read_failure(path: &str, error: &str) -> (e: ConfigWatcherError)
    ensures
        e matches ConfigWatcherError::Io(m) && m@ == "Failed to read "@ + path@ + ": "@ + error@,
{
    let mut s = prefixed("Failed to read ", path);
    s.append(": ");
    s.append(error);
    ConfigWatcherError::Io(s)
}

/// The error for a file that could not be parsed.
pub fn parse_failure(path: &str, error: &str) -> (e: ConfigWatcherError)
    ensures
        e matches ConfigWatcherError::Parse(m) && m@ == "Failed to parse "@ + path@ + ": "@ + error@,
{
    let mut s = prefixed("Failed to parse ", path);
    s.append(": ");
    s.append(error);
    ConfigWatcherError::Parse(s)
}

/// Whether the path with this extension holds a configuration.
pub open spec fn is_toml(extension: Option<String>) -> bool {
    extension matches Some(e) && e@ == "toml"@
}

/// The first of the changed paths that holds a configuration, by the extensions of the paths.
pub fn first_toml(extensions: &Vec<Option<String>>) -> (r: Option<usize>)
    ensures
        match r {
            Some(i) => i < extensions@.len() && is_toml(extensions@[i as int]) && forall|j: int|
                0 <= j < i ==> !is_toml(#[trigger] extensions@[j]),
            None => forall|j: int|
                0 <= j < extensions@.len() ==> !is_toml(#[trigger] extensions@[j]),
        },
{
    let mut i: usize = 0;
    while i < extensions.len()
        invariant
            i <= extensions@.len(),
            forall|j: int| 0 <= j < i ==> !is_toml(#[trigger] extensions@[j]),
        decreases extensions@.len() - i,
    {
        let hit = match &extensions[i] {
            Some(e) => str_eq(e.as_str(), "toml"),
            None => false,
        };
        if hit {
            return Some(i);
        }
        i += 1;
    }
    None
}

/// Watches over the configuration in force.
pub struct ConfigWatcher {
    config: EngineConfig,
    running: bool,
    reload_count: CachePaddedAtomicU64,
    rejected_count: CachePaddedAtomicU64,
}

/// What came of a change of the file.
#[derive(Debug)]
pub enum ReloadOutcome {
    /// The watcher was stopped.
    Ignored,
    /// The new configuration is in force and is to be announced.
    Reloaded,
    /// The file was not taken.
    Failed(ConfigWatcherError),
}

impl ConfigWatcher {
    pub closed spec fn on(&self) -> bool {
        self.running
    }

    pub closed spec fn reloads(&self) -> u64 {
        self.reload_count@
    }

    pub closed spec fn rejections(&self) -> u64 {
        self.rejected_count@
    }

    pub fn new(config: EngineConfig) -> (w: Self)
        ensures
            w.current() == config,
            w.on(),
            w.reloads() == 0,
            w.rejections() == 0,
    {
        ConfigWatcher {
            config,
            running: true,
            reload_count: CachePaddedAtomicU64::new(0),
            rejected_count: CachePaddedAtomicU64::new(0),
        }
    }

    /// The configuration in force.
    pub closed spec fn current(&self) -> EngineConfig {
        self.config
    }

    /// The configuration in force.
    pub fn config(&self) -> (c: &EngineConfig)
        ensures
            *c == self.current(),
    {
        &self.config
    }

    /// Whether a candidate is refused with an error: the one it came with, or the list of the
    /// rules that it breaks.
    pub open spec fn refused(
        candidate: Result<EngineConfig, ConfigWatcherError>,
        exposure: &ExposureCheck,
        e: ConfigWatcherError,
    ) -> bool {
        match candidate {
            Err(given) => e == given,
            Ok(c) => {
                let v = crate::config::config_violations(&c, exposure);
                &&& v.len() > 0
                &&& e matches ConfigWatcherError::Validation(m)
                &&& m@ == "validation failed: "@ + crate::config::violation_report(v)
            },
        }
    }

    /// Puts a parsed configuration in force where it is valid, and keeps the one in force
    /// otherwise. `candidate` is what the changed file held.
    pub fn reload_config(
        &mut self,
        candidate: Result<EngineConfig, ConfigWatcherError>,
        exposure: &ExposureCheck,
    ) -> (r: Result<(), ConfigWatcherError>)
        ensures
            final(self).on() == old(self).on(),
            final(self).reloads() == old(self).reloads(),
            final(self).rejections() == old(self).rejections(),
            match r {
                Ok(_) => candidate matches Ok(c) && crate::config::config_violations(
                    &c,
                    exposure,
                ).len() == 0 && final(self).current() == c,
                Err(e) => Self::refused(candidate, exposure, e) && final(self).current() == old(
                    self,
                ).current(),
            },
    {
        match candidate {
            Err(e) => Err(e),
            Ok(new_config) => {
                match new_config.validate(exposure) {
                    Ok(()) => {
                        self.config = new_config;
                        Ok(())
                    },
                    Err(e) => Err(
                        ConfigWatcherError::Validation(
                            prefixed("validation failed: ", e.to_text().as_str()),
                        ),
                    ),
                }
            },
        }
    }

    /// Takes note of a changed file: a valid configuration is put in force and counted, one that
    /// fails its validation is counted as rejected.
    pub fn on_change(
        &mut self,
        candidate: Result<EngineConfig, ConfigWatcherError>,
        exposure: &ExposureCheck,
    ) -> (r: ReloadOutcome)
        ensures
            final(self).on() == old(self).on(),
            !old(self).on() ==> r is Ignored && *final(self) == *old(self),
            old(self).on() ==> {
                let ok = candidate matches Ok(c) && crate::config::config_violations(
                    &c,
                    exposure,
                ).len() == 0;
                let invalid = match candidate {
                    Ok(_) => !ok,
                    Err(e) => e is Validation,
                };
                &&& ok <==> r is Reloaded
                &&& !ok ==> (r matches ReloadOutcome::Failed(e) && Self::refused(
                    candidate,
                    exposure,
                    e,
                ))
                &&& final(self).current() == (if ok {
                    candidate->Ok_0
                } else {
                    old(self).current()
                })
                &&& final(self).reloads() == (if ok {
                    crate::metrics::wrap_u64(old(self).reloads(), 1)
                } else {
                    old(self).reloads()
                })
                &&& final(self).rejections() == (if invalid {
                    crate::metrics::wrap_u64(old(self).rejections(), 1)
                } else {
                    old(self).rejections()
                })
            },
    {
        if !self.running {
            return ReloadOutcome::Ignored;
        }
        match self.reload_config(candidate, exposure) {
            Ok(()) => {
                self.reload_count.fetch_add(1);
                ReloadOutcome::Reloaded
            },
            Err(e) => {
                match &e {
                    ConfigWatcherError::Validation(_) => {
                        self.rejected_count.fetch_add(1);
                    },
                    _ => {},
                }
                ReloadOutcome::Failed(e)
            },
        }
    }

    pub fn reload_count(&self) -> (n: u64)
        ensures
            n == self.reloads(),
    {
        self.reload_count.load()
    }

    /// The number of configurations that failed their validation.
    pub fn rejected_count(&self) -> (n: u64)
        ensures
            n == self.rejections(),
    {
        self.rejected_count.load()
    }

    /// Ends the watch.
    pub fn stop(&mut self)
        ensures
            !final(self).on(),
            final(self).current() == old(self).current(),
            final(self).reloads() == old(self).reloads(),
            final(self).rejections() == old(self).rejections(),
    {
        self.running = false;
    }
}

/// A change of the file puts the new configuration in force just where it breaks no rule, and counts
/// a reload; else the one in force stays, and what broke a rule counts as rejected. A watcher that
/// was stopped does nothing.
pub proof fn law_only_valid_configurations_come_in_force(
    candidate: Result<EngineConfig, ConfigWatcherError>,
    exposure: ExposureCheck,
)
    ensures
        forall|w: &mut ConfigWatcher, r: ReloadOutcome|
            #![trigger call_ensures(ConfigWatcher::on_change, (w, candidate, &exposure), r)]
            call_ensures(ConfigWatcher::on_change, (w, candidate, &exposure), r) ==> {
                let valid = candidate is Ok && crate::config::config_violations(
                    &candidate->Ok_0,
                    &exposure,
                ).len() == 0;
                &&& !w.on() ==> r is Ignored && *final(w) == *w
                &&& w.on() ==> (r is Reloaded <==> valid) && (r is Failed <==> !valid)
                &&& w.on() && valid ==> final(w).current() == candidate->Ok_0
                &&& !valid ==> final(w).current() == w.current()
                &&& w.on() && candidate is Ok && !valid ==> r->Failed_0 is Validation
                &&& w.on() && candidate is Err ==> r->Failed_0 == candidate->Err_0
                &&& w.on() && valid && w.reloads() < u64::MAX ==> final(w).reloads() == w.reloads()
                    + 1 && final(w).rejections() == w.rejections()
                &&& w.on() && candidate is Ok && !valid && w.rejections() < u64::MAX
                    ==> final(w).rejections() == w.rejections() + 1 && final(w).reloads()
                    == w.reloads()
            },
{
}

/// What is said of a configuration that is not taken, and which file is one.
pub proof fn law_watcher_errors_say_why(msg: String, extension: Option<String>)
    ensures
        ConfigWatcherError::Io(msg).text() == "IO error: "@ + msg@,
        ConfigWatcherError::Parse(msg).text() == "Parse error: "@ + msg@,
        ConfigWatcherError::Validation(msg).text() == "Validation error: "@ + msg@,
        ConfigWatcherError::WatcherSetup(msg).text() == "Watcher setup: "@ + msg@,
        ConfigWatcherError::NoConfigFile.text() == "No TOML config file found"@,
        is_toml(extension) <==> extension is Some && extension->0@ == "toml"@,
{
}

/// Of the files that changed the first that is a configuration is taken, and none just where none is
/// one.
pub proof fn law_first_configuration_is_taken(extensions: &Vec<Option<String>>, r: Option<usize>, i: int)
    requires
        call_ensures(first_toml, (extensions,), r),
        0 <= i < extensions@.len(),
    ensures
        extensions@[i] is Some && extensions@[i]->0@ == "toml"@ ==> r is Some && r->0 <= i,
        r matches Some(n) ==> n < extensions@.len() && extensions@[n as int] is Some
            && extensions@[n as int]->0@ == "toml"@,
{
}

/// A configuration that is loaded anew comes in force just where it can be read and breaks no rule;
/// else the one in force stays.
pub proof fn law_reload_keeps_what_works(
    candidate: Result<EngineConfig, ConfigWatcherError>,
    exposure: &ExposureCheck,
)
    ensures
        forall|w: &mut ConfigWatcher, r: Result<(), ConfigWatcherError>|
            #![trigger call_ensures(ConfigWatcher::reload_config, (w, candidate, exposure), r)]
            call_ensures(ConfigWatcher::reload_config, (w, candidate, exposure), r) ==> {
                &&& r is Ok ==> candidate is Ok && final(w).current() == candidate->Ok_0
                    && crate::config::config_violations(&candidate->Ok_0, exposure).len() == 0
                &&& r is Err ==> final(w).current() == w.current()
                &&& candidate is Err ==> r is Err
                &&& candidate is Ok && crate::config::config_violations(
                    &candidate->Ok_0,
                    exposure,
                ).len() > 0 ==> r is Err
                &&& final(w).on() == w.on()
            },
{
}

} // verus!
