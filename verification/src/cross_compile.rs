//! Help with cross-compiling buildpacks: which C toolchain a target needs on a host, and the
//! Cargo environment that selects it.
use crate::text::{push_char, push_str, str_chars, str_eq};
use vstd::prelude::*;

verus! {

/// What a cross-compilation needs.
#[derive(Debug)]
pub enum CrossCompileAssistance {
    /// No assistance is available for this target and host.
    NoAssistance,
    /// The toolchain is missing; the text says how to install it.
    HelpText(String),
    /// The environment variables that Cargo needs.
    Configuration { cargo_env: Vec<(String, String)> },
}

/// The toolchain a target needs on a host.
pub enum Toolchain {
    /// No toolchain is known.
    Unknown,
    /// The host's own toolchain with `musl-gcc`.
    MuslGcc,
    /// A cross toolchain whose binaries start with the prefix, and how to install it.
    Cross { prefix: Seq<char>, help: Seq<char> },
}

/// The toolchain that `target_triple` needs on a host with this OS and architecture.
pub open spec fn toolchain(target_triple: Seq<char>, os: Seq<char>, arch: Seq<char>) -> Toolchain {
    let aarch64 = target_triple == "aarch64-unknown-linux-musl"@;
    let x86_64 = target_triple == "x86_64-unknown-linux-musl"@;
    let linux = os == "linux"@;
    let macos = os == "macos"@;
    let on_x86_64 = arch == "x86_64"@;
    let on_aarch64 = arch == "aarch64"@;
    if aarch64 && linux && on_x86_64 {
        Toolchain::Cross {
            prefix: "aarch64-linux-gnu"@,
            help: "To install an aarch64 cross-compiler on Ubuntu:\nsudo apt-get install g++-aarch64-linux-gnu libc6-dev-arm64-cross musl-tools\n"@,
        }
    } else if aarch64 && macos && (on_x86_64 || on_aarch64) {
        Toolchain::Cross {
            prefix: "aarch64-unknown-linux-musl"@,
            help: "To install an aarch64 cross-compiler on macOS:\nbrew install messense/macos-cross-toolchains/aarch64-unknown-linux-musl\n"@,
        }
    } else if (aarch64 && linux && on_aarch64) || (x86_64 && linux && on_x86_64) {
        Toolchain::MuslGcc
    } else if x86_64 && linux && on_aarch64 {
        Toolchain::Cross {
            prefix: "x86_64-linux-gnu"@,
            help: "To install an x86_64 cross-compiler on Ubuntu:\nsudo apt-get install g++-x86-64-linux-gnu libc6-dev-amd64-cross musl-tools\n"@,
        }
    } else if x86_64 && macos && (on_x86_64 || on_aarch64) {
        Toolchain::Cross {
            prefix: "x86_64-unknown-linux-musl"@,
            help: "To install an x86_64 cross-compiler on macOS:\nbrew install messense/macos-cross-toolchains/x86_64-unknown-linux-musl\n"@,
        }
    } else {
        Toolchain::Unknown
    }
}

/// The help text for a missing toolchain.
pub open spec fn help_text(target_triple: Seq<char>, os: Seq<char>, arch: Seq<char>, install: Seq<char>) -> Seq<char> {
    "For cross-compilation from "@ + arch + " "@ + os + " to "@ + target_triple
        + ",\na C compiler and linker for the target platform must be installed:\n\n"@ + install
        + "\nYou will also need to install the Rust target:\nrustup target add "@ + target_triple + "\n"@
}

/// `s` with every `-` replaced by `_`.
pub open spec fn dashes_to_underscores(s: Seq<char>) -> Seq<char> {
    s.map_values(|c: char| if c == '-' { '_' } else { c })
}

/// `s` with ASCII lowercase letters made capitals.
pub open spec fn ascii_uppercase(s: Seq<char>) -> Seq<char> {
    s.map_values(|c: char| if 'a' <= c <= 'z' { ((c as u8) - 32) as u8 as char } else { c })
}

/// The Cargo environment of a cross toolchain: the linker, and the C compiler, C++
/// compiler and archiver of the target.
pub open spec fn cargo_env(target_triple: Seq<char>, prefix: Seq<char>) -> Seq<(Seq<char>, Seq<char>)> {
    let suffix = dashes_to_underscores(target_triple);
    seq![
        ("CARGO_TARGET_"@ + ascii_uppercase(suffix) + "_LINKER"@, prefix + "-gcc"@),
        ("CC_"@ + suffix, prefix + "-gcc"@),
        ("CXX_"@ + suffix, prefix + "-g++"@),
        ("AR_"@ + suffix, prefix + "-ar"@),
    ]
}

/// The views of a list of environment variables.
pub open spec fn env_view(v: Seq<(String, String)>) -> Seq<(Seq<char>, Seq<char>)> {
    v.map_values(|e: (String, String)| (e.0@, e.1@))
}

/// The assistance for `target_triple` on the host, where the compiler the toolchain needs
/// (`musl-gcc`, or the prefixed `gcc` of a cross toolchain) is `found` or not.
pub open spec fn assistance(
    target_triple: Seq<char>,
    os: Seq<char>,
    arch: Seq<char>,
    found: bool,
    r: CrossCompileAssistance,
) -> bool {
    match toolchain(target_triple, os, arch) {
        Toolchain::Unknown => r is NoAssistance,
        Toolchain::MuslGcc => if found {
            r matches CrossCompileAssistance::Configuration { cargo_env } && cargo_env@.len() == 0
        } else {
            r matches CrossCompileAssistance::HelpText(t) && t@ == help_text(
                target_triple,
                os,
                arch,
                "To install musl-tools on Ubuntu:\nsudo apt-get install musl-tools\n"@,
            )
        },
        Toolchain::Cross { prefix, help } => if found {
            r matches CrossCompileAssistance::Configuration { cargo_env: env } && env_view(env@) == cargo_env(
                target_triple,
                prefix,
            )
        } else {
            r matches CrossCompileAssistance::HelpText(t) && t@ == help_text(target_triple, os, arch, help)
        },
    }
}

/// Whether an executable of the given name is found on the `PATH` (`which::which`).
///
/// Nothing is claimed of the answer: it depends on the file system and the environment.
#[verifier::external_body]
fn executable_found(name: &str) -> (r: bool) {
    which::which(name).is_ok()
}

/// The toolchain of a target on a host, and how to install it.
fn find_toolchain(target_triple: &str, os: &str, arch: &str) -> (r: (u8, &'static str, &'static str))
    ensures
        match toolchain(target_triple@, os@, arch@) {
            Toolchain::Unknown => r.0 == 0,
            Toolchain::MuslGcc => r.0 == 1,
            Toolchain::Cross { prefix, help } => r.0 == 2 && r.1@ == prefix && r.2@ == help,
        },
{
    let aarch64 = str_eq(target_triple, "aarch64-unknown-linux-musl");
    let x86_64 = str_eq(target_triple, "x86_64-unknown-linux-musl");
    let linux = str_eq(os, "linux");
    let macos = str_eq(os, "macos");
    let on_x86_64 = str_eq(arch, "x86_64");
    let on_aarch64 = str_eq(arch, "aarch64");
    if aarch64 && linux && on_x86_64 {
        (
            2,
            "aarch64-linux-gnu",
            "To install an aarch64 cross-compiler on Ubuntu:\nsudo apt-get install g++-aarch64-linux-gnu libc6-dev-arm64-cross musl-tools\n",
        )
    } else if aarch64 && macos && (on_x86_64 || on_aarch64) {
        (
            2,
            "aarch64-unknown-linux-musl",
            "To install an aarch64 cross-compiler on macOS:\nbrew install messense/macos-cross-toolchains/aarch64-unknown-linux-musl\n",
        )
    } else if (aarch64 && linux && on_aarch64) || (x86_64 && linux && on_x86_64) {
        (1, "", "")
    } else if x86_64 && linux && on_aarch64 {
        (
            2,
            "x86_64-linux-gnu",
            "To install an x86_64 cross-compiler on Ubuntu:\nsudo apt-get install g++-x86-64-linux-gnu libc6-dev-amd64-cross musl-tools\n",
        )
    } else if x86_64 && macos && (on_x86_64 || on_aarch64) {
        (
            2,
            "x86_64-unknown-linux-musl",
            "To install an x86_64 cross-compiler on macOS:\nbrew install messense/macos-cross-toolchains/x86_64-unknown-linux-musl\n",
        )
    } else {
        (0, "", "")
    }
}

/// The help text for a missing toolchain.
fn make_help_text(target_triple: &str, os: &str, arch: &str, install: &str) -> (r: String)
    ensures
        r@ == help_text(target_triple@, os@, arch@, install@),
{
    let mut s = String::new();
    push_str(&mut s, "For cross-compilation from ");
    push_str(&mut s, arch);
    push_str(&mut s, " ");
    push_str(&mut s, os);
    push_str(&mut s, " to ");
    push_str(&mut s, target_triple);
    push_str(&mut s, ",\na C compiler and linker for the target platform must be installed:\n\n");
    push_str(&mut s, install);
    push_str(&mut s, "\nYou will also need to install the Rust target:\nrustup target add ");
    push_str(&mut s, target_triple);
    push_str(&mut s, "\n");
    s
}

/// `s` with every `-` replaced by `_`, and with ASCII lowercase letters made capitals where
/// `upper` is set.
fn env_suffix(s: &str, upper: bool) -> (r: String)
    ensures
        r@ == if upper {
            ascii_uppercase(dashes_to_underscores(s@))
        } else {
            dashes_to_underscores(s@)
        },
{
    let cs = str_chars(s);
    let mut r = String::new();
    let ghost target = if upper {
        ascii_uppercase(dashes_to_underscores(s@))
    } else {
        dashes_to_underscores(s@)
    };
    let mut i: usize = 0;
    while i < cs.len()
        invariant
            0 <= i <= cs@.len(),
            cs@ == s@,
            target == if upper {
                ascii_uppercase(dashes_to_underscores(s@))
            } else {
                dashes_to_underscores(s@)
            },
            r@ == target.take(i as int),
        decreases cs@.len() - i,
    {
        let c = cs[i];
        let d = if c == '-' {
            '_'
        } else {
            c
        };
        let e = if upper && 'a' <= d && d <= 'z' {
            ((d as u8) - 32) as char
        } else {
            d
        };
        push_char(&mut r, e);
        assert(target.take(i + 1) =~= target.take(i as int).push(e));
        i += 1;
    }
    assert(target.take(cs@.len() as int) =~= target);
    r
}

/// `prefix` followed by `suffix`.
fn concat(prefix: &str, suffix: &str) -> (r: String)
    ensures
        r@ == prefix@ + suffix@,
{
    let mut s = prefix.to_owned();
    push_str(&mut s, suffix);
    s
}

/// The assistance for `target_triple` on a host with the given OS and architecture (the
/// values of `std::env::consts::OS` and `std::env::consts::ARCH`), where the compiler the
/// toolchain needs is `found` or not.
pub fn assistance_for(target_triple: &str, os: &str, arch: &str, found: bool) -> (r: CrossCompileAssistance)
    ensures
        assistance(target_triple@, os@, arch@, found, r),
{
    let (kind, prefix, install) = find_toolchain(target_triple, os, arch);
    if kind == 0 {
        CrossCompileAssistance::NoAssistance
    } else if kind == 1 {
        if found {
            CrossCompileAssistance::Configuration { cargo_env: Vec::new() }
        } else {
            CrossCompileAssistance::HelpText(
                make_help_text(
                    target_triple,
                    os,
                    arch,
                    "To install musl-tools on Ubuntu:\nsudo apt-get install musl-tools\n",
                ),
            )
        }
    } else if found {
        let suffix = env_suffix(target_triple, false);
        let upper = env_suffix(target_triple, true);
        let gcc = concat(prefix, "-gcc");
        let gxx = concat(prefix, "-g++");
        let ar = concat(prefix, "-ar");
        let linker_var = concat(concat("CARGO_TARGET_", upper.as_str()).as_str(), "_LINKER");
        let mut env: Vec<(String, String)> = Vec::new();
        env.push((linker_var, gcc.clone()));
        env.push((concat("CC_", suffix.as_str()), gcc));
        env.push((concat("CXX_", suffix.as_str()), gxx));
        env.push((concat("AR_", suffix.as_str()), ar));
        assert(env_view(env@) =~= cargo_env(target_triple@, prefix@));
        CrossCompileAssistance::Configuration { cargo_env: env }
    } else {
        CrossCompileAssistance::HelpText(make_help_text(target_triple, os, arch, install))
    }
}

/// On a macOS host, on `x86_64` or `aarch64`, both musl targets are built with the cross
/// toolchain named like the target: `<target>-gcc` is looked up; where it is found the
/// Cargo environment points the linker, C and C++ compilers and archiver at
/// `<target>-gcc`, `<target>-g++` and `<target>-ar`, and where it is not the help text
/// says how to install it. There is always some assistance.
pub proof fn lemma_macos_uses_target_toolchain(
    target_triple: Seq<char>,
    arch: Seq<char>,
    found: bool,
    r: CrossCompileAssistance,
)
    requires
        target_triple == "aarch64-unknown-linux-musl"@ || target_triple == "x86_64-unknown-linux-musl"@,
        arch == "x86_64"@ || arch == "aarch64"@,
        assistance(target_triple, "macos"@, arch, found, r),
    ensures
        compiler_of(target_triple, "macos"@, arch) == Some(target_triple + "-gcc"@),
        r !is NoAssistance,
        found ==> (r matches CrossCompileAssistance::Configuration { cargo_env: env } && env_view(env@)
            =~= seq![
            ("CARGO_TARGET_"@ + ascii_uppercase(dashes_to_underscores(target_triple)) + "_LINKER"@, target_triple + "-gcc"@),
            ("CC_"@ + dashes_to_underscores(target_triple), target_triple + "-gcc"@),
            ("CXX_"@ + dashes_to_underscores(target_triple), target_triple + "-g++"@),
            ("AR_"@ + dashes_to_underscores(target_triple), target_triple + "-ar"@),
        ]),
        !found ==> r is HelpText,
{
    reveal_strlit("macos");
    reveal_strlit("linux");
    reveal_strlit("x86_64");
    reveal_strlit("aarch64");
    reveal_strlit("aarch64-unknown-linux-musl");
    reveal_strlit("x86_64-unknown-linux-musl");
    assert("macos"@ != "linux"@) by {
        assert("macos"@[0] != "linux"@[0]);
    }
    assert("x86_64"@ != "aarch64"@) by {
        assert("x86_64"@[0] != "aarch64"@[0]);
    }
    assert("aarch64-unknown-linux-musl"@ != "x86_64-unknown-linux-musl"@) by {
        assert("aarch64-unknown-linux-musl"@[0] != "x86_64-unknown-linux-musl"@[0]);
    }
    if target_triple == "aarch64-unknown-linux-musl"@ {
        assert(toolchain(target_triple, "macos"@, arch) matches Toolchain::Cross { prefix, .. } && prefix
            == target_triple);
    } else {
        assert(toolchain(target_triple, "macos"@, arch) matches Toolchain::Cross { prefix, .. } && prefix
            == target_triple);
    }
}

/// On a Linux host, a musl target of the host's own architecture needs only `musl-gcc`, and
/// a musl target of the other architecture needs the GNU cross toolchain of that
/// architecture (`aarch64-linux-gnu` or `x86_64-linux-gnu`). There is always some
/// assistance.
pub proof fn lemma_linux_toolchains(target_arch: Seq<char>, arch: Seq<char>, found: bool, r: CrossCompileAssistance)
    requires
        target_arch == "x86_64"@ || target_arch == "aarch64"@,
        arch == "x86_64"@ || arch == "aarch64"@,
        assistance(target_arch + "-unknown-linux-musl"@, "linux"@, arch, found, r),
    ensures
        target_arch == arch ==> compiler_of(target_arch + "-unknown-linux-musl"@, "linux"@, arch) == Some(
            "musl-gcc"@,
        ),
        target_arch != arch ==> compiler_of(target_arch + "-unknown-linux-musl"@, "linux"@, arch) == Some(
            target_arch + "-linux-gnu-gcc"@,
        ),
        r !is NoAssistance,
        target_arch == arch && found ==> (r matches CrossCompileAssistance::Configuration { cargo_env: env }
            && env@.len() == 0),
        !found ==> r is HelpText,
{
    reveal_strlit("macos");
    reveal_strlit("linux");
    reveal_strlit("x86_64");
    reveal_strlit("aarch64");
    reveal_strlit("aarch64-unknown-linux-musl");
    reveal_strlit("x86_64-unknown-linux-musl");
    reveal_strlit("-unknown-linux-musl");
    reveal_strlit("aarch64-linux-gnu");
    reveal_strlit("x86_64-linux-gnu");
    reveal_strlit("-linux-gnu-gcc");
    reveal_strlit("-gcc");
    reveal_strlit("musl-gcc");
    assert("x86_64"@ + "-unknown-linux-musl"@ =~= "x86_64-unknown-linux-musl"@);
    assert("aarch64"@ + "-unknown-linux-musl"@ =~= "aarch64-unknown-linux-musl"@);
    assert("x86_64-linux-gnu"@ + "-gcc"@ =~= "x86_64"@ + "-linux-gnu-gcc"@);
    assert("aarch64-linux-gnu"@ + "-gcc"@ =~= "aarch64"@ + "-linux-gnu-gcc"@);
    assert("macos"@ != "linux"@) by {
        assert("macos"@[0] != "linux"@[0]);
    }
    assert("x86_64"@ != "aarch64"@) by {
        assert("x86_64"@[0] != "aarch64"@[0]);
    }
    assert("aarch64-unknown-linux-musl"@ != "x86_64-unknown-linux-musl"@) by {
        assert("aarch64-unknown-linux-musl"@[0] != "x86_64-unknown-linux-musl"@[0]);
    }
    let t = target_arch + "-unknown-linux-musl"@;
    if target_arch == arch {
        assert(toolchain(t, "linux"@, arch) is MuslGcc);
    } else {
        assert(toolchain(t, "linux"@, arch) is Cross);
    }
}

/// The compiler whose presence on the `PATH` decides the assistance: `musl-gcc` for the
/// host's own toolchain, the prefixed `gcc` of a cross toolchain, none for an unknown one.
pub open spec fn compiler_of(target_triple: Seq<char>, os: Seq<char>, arch: Seq<char>) -> Option<Seq<char>> {
    match toolchain(target_triple, os, arch) {
        Toolchain::Unknown => None,
        Toolchain::MuslGcc => Some("musl-gcc"@),
        Toolchain::Cross { prefix, .. } => Some(prefix + "-gcc"@),
    }
}

/// The name of the compiler to look up for cross-compiling to `target_triple` on a host
/// with the given OS and architecture, if the toolchain is known.
pub fn required_compiler(target_triple: &str, os: &str, arch: &str) -> (r: Option<String>)
    ensures
        match compiler_of(target_triple@, os@, arch@) {
            None => r is None,
            Some(c) => r matches Some(name) && name@ == c,
        },
{
    let (kind, prefix, _install) = find_toolchain(target_triple, os, arch);
    if kind == 0 {
        None
    } else if kind == 1 {
        let name = "musl-gcc".to_owned();
        proof {
            reveal_strlit("musl-gcc");
        }
        Some(name)
    } else {
        Some(concat(prefix, "-gcc"))
    }
}

/// The assistance for cross-compiling to `target_triple` on a host with the given OS and
/// architecture: it looks up the compiler that [`required_compiler`] names on the `PATH`,
/// and gives what [`assistance_for`] gives for whether it was found. For an unknown
/// toolchain nothing is looked up and there is no assistance.
pub fn cross_compile_assistance(target_triple: &str, os: &str, arch: &str) -> (r: CrossCompileAssistance)
    ensures
        exists|found: bool| assistance(target_triple@, os@, arch@, found, r),
        compiler_of(target_triple@, os@, arch@) is None ==> r is NoAssistance,
{
    match required_compiler(target_triple, os, arch) {
        None => assistance_for(target_triple, os, arch, false),
        Some(compiler) => {
            let found = executable_found(compiler.as_str());
            assistance_for(target_triple, os, arch, found)
        },
    }
}

} // verus!
