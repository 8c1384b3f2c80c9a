//! What the build helper decides: the target to build for and the command
//! that builds it.

use crate::text::same_text;
use crate::text::starts_with;
use vstd::prelude::*;
use vstd::string::StringExecFns;

verus! {

/// The target for which Linux builds are made unless another is asked for.
pub const DEFAULT_LINUX_TARGET: &'static str = "x86_64-unknown-linux-gnu";

/// The target of Linux builds that link against musl.
pub const DEFAULT_LINUX_MUSL_TARGET: &'static str = "x86_64-unknown-linux-musl";

/// The name of the binary.
pub const BIN_NAME: &'static str = "lumina-latency-monitor";

/// The name of the package.
pub const PACKAGE_NAME: &'static str = "lumina-latency-monitor";

/// The value of `flag` among the arguments from the place `from` on, where
/// `found` is the value found before: the argument after the flag's last
/// occurrence that has one which does not begin with `--`. An argument taken
/// as a value is not itself looked at as a flag.
pub open spec fn flag_value_from(
    args: Seq<Seq<char>>,
    flag: Seq<char>,
    from: int,
    found: Option<Seq<char>>,
) -> Option<Seq<char>>
    decreases args.len() - from,
{
    if from < 0 || from >= args.len() {
        found
    } else if args[from] == flag && from + 1 < args.len() && !"--"@.is_prefix_of(args[from + 1]) {
        flag_value_from(args, flag, from + 2, Some(args[from + 1]))
    } else {
        flag_value_from(args, flag, from + 1, found)
    }
}

/// The value of `flag` among the arguments, if it has one.
pub open spec fn flag_value(args: Seq<Seq<char>>, flag: Seq<char>) -> Option<Seq<char>> {
    flag_value_from(args, flag, 0, None)
}

/// The characters of each of `args`.
pub open spec fn args_of(args: Seq<String>) -> Seq<Seq<char>> {
    args.map_values(|arg: String| arg@)
}

/// Looks for the value of `flag` among the arguments.
pub fn parse_flag_value(args: &Vec<String>, flag: &str) -> (out: Option<String>)
    ensures
        match flag_value(args_of(args@), flag@) {
            Some(value) => out matches Some(v) && v@ == value,
            None => out is None,
        },
{
    let ghost all = args_of(args@);
    let mut out: Option<String> = None;
    let mut i: usize = 0;
    while i < args.len()
        invariant
            all == args_of(args@),
            i <= args@.len(),
            flag_value(all, flag@) == flag_value_from(
                all,
                flag@,
                i as int,
                match out {
                    Some(v) => Some(v@),
                    None => None,
                },
            ),
        decreases args@.len() - i,
    {
        if same_text(args[i].as_str(), flag) && i + 1 < args.len() && !starts_with(
            args[i + 1].as_str(),
            "--",
        ) {
            out = Some(args[i + 1].clone());
            i = i + 2;
        } else {
            i = i + 1;
        }
    }
    out
}

/// Whether a build for `target` on a machine with this operating system and
/// this architecture needs no cross-compilation: only the default Linux
/// target on Linux on x86-64 needs none.
pub fn is_native_target(os: &str, arch: &str, target: &str) -> (native: bool)
    ensures
        native == (os@ == "linux"@ && arch@ == "x86_64"@ && target@ == DEFAULT_LINUX_TARGET@),
{
    same_text(os, "linux") && same_text(arch, "x86_64") && same_text(target, DEFAULT_LINUX_TARGET)
}

/// The target to build for: the one asked for with `--target`, or else the
/// default Linux target.
pub fn linux_target(args: &Vec<String>) -> (target: String)
    ensures
        target@ == match flag_value(args_of(args@), "--target"@) {
            Some(value) => value,
            None => DEFAULT_LINUX_TARGET@,
        },
{
    match parse_flag_value(args, "--target") {
        Some(value) => value,
        None => String::from_str(DEFAULT_LINUX_TARGET),
    }
}

/// The arguments with which `cargo` builds the package for `target`: a plain
/// release build where the target is native, a `zigbuild` for the target
/// where it is not.
pub open spec fn build_arguments(target: Seq<char>, native: bool) -> Seq<Seq<char>> {
    if native {
        seq!["build"@, "-p"@, PACKAGE_NAME@, "--release"@]
    } else {
        seq!["zigbuild"@, "-p"@, PACKAGE_NAME@, "--release"@, "--target"@, target]
    }
}

/// The parts of the path, below the workspace's root, at which the build
/// leaves the binary.
pub open spec fn binary_path_parts(target: Seq<char>, native: bool) -> Seq<Seq<char>> {
    if native {
        seq!["target"@, "release"@, BIN_NAME@]
    } else {
        seq!["target"@, target, "release"@, BIN_NAME@]
    }
}

/// The arguments with which `cargo` builds the package for `target`.
pub fn cargo_build_arguments(target: &str, native: bool) -> (arguments: Vec<String>)
    ensures
        args_of(arguments@) == build_arguments(target@, native),
{
    let mut arguments: Vec<String> = Vec::new();
    if native {
        arguments.push(String::from_str("build"));
    } else {
        arguments.push(String::from_str("zigbuild"));
    }
    arguments.push(String::from_str("-p"));
    arguments.push(String::from_str(PACKAGE_NAME));
    arguments.push(String::from_str("--release"));
    if !native {
        arguments.push(String::from_str("--target"));
        arguments.push(String::from_str(target));
    }
    assert(args_of(arguments@) =~= build_arguments(target@, native));
    arguments
}

/// The parts of the path, below the workspace's root, at which the build
/// leaves the binary.
pub fn binary_path(target: &str, native: bool) -> (parts: Vec<String>)
    ensures
        args_of(parts@) == binary_path_parts(target@, native),
{
    let mut parts: Vec<String> = Vec::new();
    parts.push(String::from_str("target"));
    if !native {
        parts.push(String::from_str(target));
    }
    parts.push(String::from_str("release"));
    parts.push(String::from_str(BIN_NAME));
    assert(args_of(parts@) =~= binary_path_parts(target@, native));
    parts
}

} // verus!
