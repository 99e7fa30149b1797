use cross_toolchain::config::Config;
use cross_toolchain::config::Verbosity;
use cross_toolchain::errors::ConfigError;

fn new_config(
    target: &str,
    host: Option<&str>,
    build: Option<&str>,
    outdir: Option<&str>,
    verbose: Option<u8>,
    machine: &str,
    home: Option<&str>,
) -> Result<Config, ConfigError> {
    Config::new(
        target.to_string(),
        host.map(|s| s.to_string()),
        build.map(|s| s.to_string()),
        outdir.map(|s| s.to_string()),
        verbose,
        machine.to_string(),
        home.map(|s| s.to_string()),
    )
}

#[test]
fn explicit_choices_are_kept() {
    let c = new_config(
        "arm64",
        Some("x86_64"),
        Some("x86_64"),
        Some("/tmp/out"),
        Some(2),
        "riscv64",
        Some("/home/u"),
    )
    .unwrap();
    assert_eq!(c.targetarch, "arm64");
    assert_eq!(c.hostarch, "x86_64");
    assert_eq!(c.buildarch, "x86_64");
    assert_eq!(c.verbose, Verbosity::Info);
    assert_eq!(c.outdir, "/tmp/out/arm64_on_x86_64");
}

#[test]
fn machine_architecture_fills_missing_host_and_build() {
    let c = new_config("arm64", None, None, Some("/o"), None, "riscv64", None).unwrap();
    assert_eq!(c.hostarch, "riscv64");
    assert_eq!(c.buildarch, "riscv64");
    assert_eq!(c.outdir, "/o/arm64_on_riscv64");
}

#[test]
fn default_outdir_is_dotfile_under_home() {
    let c = new_config("arm64", Some("arm64"), Some("arm64"), None, None, "x86_64", Some("/home/u"))
        .unwrap();
    assert_eq!(c.outdir, "/home/u/.c-toolchains/arm64");
}

#[test]
fn empty_target_is_refused() {
    let r = new_config("", Some("a"), Some("b"), Some("/o"), None, "m", None);
    assert_eq!(r.unwrap_err(), ConfigError::EmptyTripleComponent);
}

#[test]
fn empty_machine_default_is_refused() {
    let r = new_config("arm64", None, Some("b"), Some("/o"), None, "", None);
    assert_eq!(r.unwrap_err(), ConfigError::EmptyTripleComponent);
}

#[test]
fn no_outdir_and_no_home_is_refused() {
    let r = new_config("arm64", Some("a"), Some("b"), None, None, "m", None);
    assert_eq!(r.unwrap_err(), ConfigError::NoHomeDir);
}

#[test]
fn outdir_overrides_a_missing_home() {
    let c = new_config("arm64", Some("a"), Some("b"), Some("/o"), None, "m", None).unwrap();
    assert_eq!(c.outdir, "/o/arm64_on_a_from_b");
}

#[test]
fn verbosity_levels_follow_the_repeat_count() {
    assert_eq!(Verbosity::from(0u8), Verbosity::Error);
    assert_eq!(Verbosity::from(1u8), Verbosity::Warn);
    assert_eq!(Verbosity::from(2u8), Verbosity::Info);
    assert_eq!(Verbosity::from(3u8), Verbosity::Debug);
    assert_eq!(Verbosity::from(200u8), Verbosity::Debug);
}

#[test]
fn missing_verbosity_defaults_to_warn() {
    let c = new_config("t", Some("h"), Some("b"), Some("/o"), None, "m", None).unwrap();
    assert_eq!(c.verbose, Verbosity::Warn);
    let c2 = new_config("t", Some("h"), Some("b"), Some("/o"), Some(0), "m", None).unwrap();
    assert_eq!(c2.verbose, Verbosity::Error);
}

#[test]
fn from_env_keeps_explicit_choices() {
    let r = Config::from_env(
        "arm64".to_string(),
        Some("x86_64".to_string()),
        Some("ppc64".to_string()),
        Some("/tmp/base".to_string()),
        Some(1),
    );
    let c = r.unwrap();
    assert_eq!(c.targetarch, "arm64");
    assert_eq!(c.hostarch, "x86_64");
    assert_eq!(c.buildarch, "ppc64");
    assert_eq!(c.verbose, Verbosity::Warn);
    assert_eq!(c.outdir, "/tmp/base/arm64_on_x86_64_from_ppc64");
}

#[test]
fn from_env_refuses_an_empty_target() {
    let r = Config::from_env("".to_string(), None, None, Some("/o".to_string()), None);
    assert_eq!(r.unwrap_err(), ConfigError::EmptyTripleComponent);
}
