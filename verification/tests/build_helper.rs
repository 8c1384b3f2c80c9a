use lumina_latency_monitor::xtask::binary_path;
use lumina_latency_monitor::xtask::cargo_build_arguments;
use lumina_latency_monitor::xtask::is_native_target;
use lumina_latency_monitor::xtask::linux_target;
use lumina_latency_monitor::xtask::parse_flag_value;
use lumina_latency_monitor::xtask::DEFAULT_LINUX_MUSL_TARGET;
use lumina_latency_monitor::xtask::DEFAULT_LINUX_TARGET;

fn arguments(items: &[&str]) -> Vec<String> {
    items.iter().map(|item| item.to_string()).collect()
}

#[test]
fn a_flag_has_the_value_after_it() {
    let args = arguments(&["--target", "x86_64-unknown-linux-musl"]);
    assert_eq!(
        parse_flag_value(&args, "--target"),
        Some(String::from("x86_64-unknown-linux-musl"))
    );
    assert_eq!(parse_flag_value(&args, "--other"), None);
    assert_eq!(parse_flag_value(&Vec::new(), "--target"), None);
}

#[test]
fn a_flag_without_a_value_has_none() {
    assert_eq!(parse_flag_value(&arguments(&["--target"]), "--target"), None);
    assert_eq!(
        parse_flag_value(&arguments(&["--target", "--release"]), "--target"),
        None
    );
    assert_eq!(
        parse_flag_value(&arguments(&["--target", "-v"]), "--target"),
        Some(String::from("-v"))
    );
}

#[test]
fn the_last_value_of_a_flag_counts() {
    let args = arguments(&["--target", "a", "x", "--target", "b"]);
    assert_eq!(parse_flag_value(&args, "--target"), Some(String::from("b")));
    let args = arguments(&["--target", "a", "--target", "--x"]);
    assert_eq!(parse_flag_value(&args, "--target"), Some(String::from("a")));
}

#[test]
fn a_value_is_not_taken_for_a_flag() {
    // the second `t` is the value of the first, so the `b` after it is no value
    let args = arguments(&["t", "t", "b"]);
    assert_eq!(parse_flag_value(&args, "t"), Some(String::from("t")));
    let args = arguments(&["t", "t", "t", "b"]);
    assert_eq!(parse_flag_value(&args, "t"), Some(String::from("b")));
}

#[test]
fn only_the_default_target_on_linux_is_native() {
    assert!(is_native_target("linux", "x86_64", DEFAULT_LINUX_TARGET));
    assert!(!is_native_target("linux", "x86_64", DEFAULT_LINUX_MUSL_TARGET));
    assert!(!is_native_target("macos", "x86_64", DEFAULT_LINUX_TARGET));
    assert!(!is_native_target("linux", "aarch64", DEFAULT_LINUX_TARGET));
    assert_eq!(DEFAULT_LINUX_TARGET, "x86_64-unknown-linux-gnu");
    assert_eq!(DEFAULT_LINUX_MUSL_TARGET, "x86_64-unknown-linux-musl");
}

#[test]
fn the_target_defaults_to_linux_gnu() {
    assert_eq!(linux_target(&Vec::new()), DEFAULT_LINUX_TARGET);
    assert_eq!(
        linux_target(&arguments(&["--target", "aarch64-unknown-linux-gnu"])),
        "aarch64-unknown-linux-gnu"
    );
    assert_eq!(linux_target(&arguments(&["--target"])), DEFAULT_LINUX_TARGET);
}

#[test]
fn the_build_command_depends_on_the_target() {
    assert_eq!(
        cargo_build_arguments(DEFAULT_LINUX_TARGET, true),
        arguments(&["build", "-p", "lumina-latency-monitor", "--release"])
    );
    assert_eq!(
        cargo_build_arguments(DEFAULT_LINUX_MUSL_TARGET, false),
        arguments(&[
            "zigbuild",
            "-p",
            "lumina-latency-monitor",
            "--release",
            "--target",
            "x86_64-unknown-linux-musl"
        ])
    );
    assert_eq!(
        binary_path(DEFAULT_LINUX_TARGET, true),
        arguments(&["target", "release", "lumina-latency-monitor"])
    );
    assert_eq!(
        binary_path(DEFAULT_LINUX_MUSL_TARGET, false),
        arguments(&[
            "target",
            "x86_64-unknown-linux-musl",
            "release",
            "lumina-latency-monitor"
        ])
    );
}
