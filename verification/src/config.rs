//! The run configuration: the triple, the verbosity, and the output
//! directory, resolved from the caller's choices with machine defaults.
//!
//! A missing host or build architecture defaults to the machine's own CPU
//! architecture; a missing output directory defaults to a dotfile directory
//! under the user's home. Both defaults come from the running environment,
//! so [`Config::from_env`] reads them and hands them to [`Config::new`],
//! which decides everything and is specified exactly.

use vstd::prelude::*;

use crate::errors::ConfigError;
use crate::layout::join_path;
use crate::layout::subpath_of;
use crate::triple::Triple;
use crate::triple::identity_of;

verus! {

/// How much the run reports, coarsest first.
#[derive(Clone, Copy, Debug, PartialEq, Eq, Structural)]
pub enum Verbosity {
    Debug,
    Info,
    Warn,
    Error,
}

/// The verbosity a repeat count selects: errors only by default, one step
/// more talkative per repetition.
pub open spec fn verbosity_of(v: u8) -> Verbosity {
    if v == 0 {
        Verbosity::Error
    } else if v == 1 {
        Verbosity::Warn
    } else if v == 2 {
        Verbosity::Info
    } else {
        Verbosity::Debug
    }
}

impl core::convert::From<u8> for Verbosity {
    fn from(value: u8) -> (r: Self) {
        match value {
            0 => Verbosity::Error,
            1 => Verbosity::Warn,
            2 => Verbosity::Info,
            _ => Verbosity::Debug,
        }
    }
}

impl vstd::std_specs::convert::FromSpecImpl<u8> for Verbosity {
    open spec fn obeys_from_spec() -> bool {
        true
    }

    open spec fn from_spec(v: u8) -> Self {
        verbosity_of(v)
    }
}

/// The verbosity of a run: the given count's level, `Warn` when none was
/// given.
pub open spec fn verbosity_choice(v: Option<u8>) -> Verbosity {
    match v {
        Option::Some(n) => verbosity_of(n),
        Option::None => Verbosity::Warn,
    }
}

/// An architecture choice: the explicit value when one was given, else the
/// machine's own.
pub open spec fn chosen_arch(explicit: Option<String>, machine: Seq<char>) -> Seq<char> {
    match explicit {
        Option::Some(s) => s@,
        Option::None => machine,
    }
}

/// The default base output directory: `.c-toolchains` under the home
/// directory.
pub open spec fn default_base_of(home: Seq<char>) -> Seq<char> {
    subpath_of(home, ".c-toolchains"@)
}

/// The base output directory of a run: the explicit one when given, else
/// the default under the home directory (meaningless when neither exists —
/// the configuration is refused then).
pub open spec fn base_outdir_of(outdir: Option<String>, home: Option<String>) -> Seq<char> {
    match outdir {
        Option::Some(o) => o@,
        Option::None => match home {
            Option::Some(h) => default_base_of(h@),
            Option::None => Seq::empty(),
        },
    }
}

/// Everything one run needs: the resolved triple components, the verbosity,
/// and the output directory of this build (the base directory joined with
/// the triple's canonical identity).
#[derive(Debug)]
pub struct Config {
    pub verbose: Verbosity,
    pub hostarch: String,
    pub buildarch: String,
    pub targetarch: String,
    pub outdir: String,
}

impl Config {
    /// Every triple component is non-empty.
    pub open spec fn wf(&self) -> bool {
        self.targetarch@.len() > 0 && self.hostarch@.len() > 0 && self.buildarch@.len() > 0
    }

    /// Decides the configuration from plain values: the caller's choices
    /// plus the machine architecture and home directory of the running
    /// environment. An empty triple component is refused; a missing output
    /// directory is refused only when no home directory is known either;
    /// otherwise the configuration is owed, with the output directory of
    /// the build keyed by the triple's canonical identity.
    pub fn new(
        targetarch: String,
        hostarch: Option<String>,
        buildarch: Option<String>,
        outdir: Option<String>,
        verbose: Option<u8>,
        machine_arch: String,
        home_dir: Option<String>,
    ) -> (r: Result<Config, ConfigError>)
        ensures
            ({
                let host = chosen_arch(hostarch, machine_arch@);
                let build = chosen_arch(buildarch, machine_arch@);
                if targetarch@.len() == 0 || host.len() == 0 || build.len() == 0 {
                    r == Err::<Config, ConfigError>(ConfigError::EmptyTripleComponent)
                } else if outdir is None && home_dir is None {
                    r == Err::<Config, ConfigError>(ConfigError::NoHomeDir)
                } else {
                    &&& r is Ok
                    &&& r->Ok_0.wf()
                    &&& r->Ok_0.targetarch@ == targetarch@
                    &&& r->Ok_0.hostarch@ == host
                    &&& r->Ok_0.buildarch@ == build
                    &&& r->Ok_0.verbose == verbosity_choice(verbose)
                    &&& r->Ok_0.outdir@ == subpath_of(
                        base_outdir_of(outdir, home_dir),
                        identity_of(build, host, targetarch@),
                    )
                }
            }),
    {
        let host = match hostarch {
            Option::Some(h) => h,
            Option::None => machine_arch.clone(),
        };
        let build = match buildarch {
            Option::Some(b) => b,
            Option::None => machine_arch,
        };
        if targetarch.as_str().is_empty() || host.as_str().is_empty()
            || build.as_str().is_empty() {
            return Err(ConfigError::EmptyTripleComponent);
        }
        let base: String = match outdir {
            Option::Some(o) => o,
            Option::None => match home_dir {
                Option::Some(h) => join_path(&h, ".c-toolchains"),
                Option::None => {
                    return Err(ConfigError::NoHomeDir);
                },
            },
        };
        let triple = Triple::new(build.clone(), host.clone(), targetarch.clone());
        let (identity, _shape) = triple.resolve();
        let outdir_full = join_path(&base, identity.as_str());
        let verb = match verbose {
            Option::Some(n) => Verbosity::from(n),
            Option::None => Verbosity::Warn,
        };
        Ok(
            Config {
                verbose: verb,
                hostarch: host,
                buildarch: build,
                targetarch,
                outdir: outdir_full,
            },
        )
    }

    /// Decides the configuration against the running environment: the
    /// machine's CPU architecture fills a missing host or build
    /// architecture, and the home directory anchors the default output
    /// directory. Whatever the environment reports, an accepted
    /// configuration keeps every explicit choice and is well-formed; with
    /// every choice explicit and non-empty, acceptance is owed.
    pub fn from_env(
        targetarch: String,
        hostarch: Option<String>,
        buildarch: Option<String>,
        outdir: Option<String>,
        verbose: Option<u8>,
    ) -> (r: Result<Config, ConfigError>)
        ensures
            r is Ok ==> ({
                let c = r->Ok_0;
                &&& c.wf()
                &&& c.targetarch@ == targetarch@
                &&& (hostarch matches Option::Some(h) ==> c.hostarch@ == h@)
                &&& (buildarch matches Option::Some(b) ==> c.buildarch@ == b@)
                &&& c.verbose == verbosity_choice(verbose)
                &&& (outdir matches Option::Some(o) ==> c.outdir@ == subpath_of(
                    o@,
                    identity_of(c.buildarch@, c.hostarch@, c.targetarch@),
                ))
            }),
            targetarch@.len() == 0 ==> r == Err::<Config, ConfigError>(
                ConfigError::EmptyTripleComponent,
            ),
            ({
                &&& targetarch@.len() > 0
                &&& (hostarch matches Option::Some(h) && h@.len() > 0)
                &&& (buildarch matches Option::Some(b) && b@.len() > 0)
                &&& outdir is Some
            }) ==> r is Ok,
    {
        let machine_arch = machine_cpu_arch();
        let home_dir = home_dir_string();
        Config::new(targetarch, hostarch, buildarch, outdir, verbose, machine_arch, home_dir)
    }
}

/// Relies on sysinfo's `System::cpu_arch` for the name of the CPU
/// architecture the program is running on. The value depends on the
/// machine, so nothing is promised of it.
#[verifier::external_body]
fn machine_cpu_arch() -> String {
    sysinfo::System::cpu_arch()
}

/// Relies on home's `home_dir` for the user's home directory, `None` when
/// it cannot be located. The value depends on the environment, so nothing
/// is promised of it; a home path that is not valid UTF-8 is treated as not
/// located.
#[verifier::external_body]
fn home_dir_string() -> Option<String> {
    match home::home_dir() {
        Some(p) => match p.into_os_string().into_string() {
            Ok(s) => Some(s),
            Err(_) => None,
        },
        None => None,
    }
}

} // verus!
