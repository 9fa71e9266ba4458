//! The platform configuration: the target architecture and the capability
//! flags that decide which native code paths are built.
use vstd::prelude::*;
use crate::text::same_text;

verus! {

/// The target architecture.
#[allow(non_camel_case_types)]
#[derive(Debug, Clone, Copy, PartialEq, Eq, Structural)]
pub enum Arch {
    /// 32- or 64-bit ARM
    arm,
    /// 32-bit x86
    x86,
    /// 64-bit x86
    x86_64,
}

/// The errors that abort a build.
#[derive(Debug, Clone, Copy, PartialEq, Eq, Structural)]
pub enum BuildError {
    /// The target architecture identifier is not one of the known ones.
    UnsupportedArchitecture,
    /// A source directory could not be listed.
    DirectoryUnreadable,
    /// A directory entry's name is not valid UTF-8.
    NonUtf8FileName,
    /// The native toolchain could not be launched or reported a failure.
    ExternalToolFailure,
}

/// A platform configuration.
#[derive(Debug, Clone, Copy, PartialEq, Eq, Structural)]
pub struct Configuration {
    /// The architecture
    pub arch: Arch,
    /// Support for 128 bit vector instructions
    pub v128: bool,
    /// Support for 256 bit vector instructions
    pub v256: bool,
    /// Support for vale
    pub vale: bool,
    /// Support for inline assembly
    pub inline_asm: bool,
    /// Support for builtin compiler intrinsics
    pub intrinsics: bool,
    /// Support for native u128
    pub native_u128: bool,
}

/// The architecture that a target identifier names, if it is a known one.
pub open spec fn arch_of_id(id: Seq<char>) -> Option<Arch> {
    if id == "arm"@ || id == "aarch64"@ {
        Some(Arch::arm)
    } else if id == "x86"@ {
        Some(Arch::x86)
    } else if id == "x86_64"@ {
        Some(Arch::x86_64)
    } else {
        None
    }
}

/// The baseline capabilities of each architecture.
pub open spec fn baseline(arch: Arch) -> Configuration {
    match arch {
        Arch::arm => Configuration {
            arch,
            v128: false,
            v256: false,
            vale: false,
            inline_asm: false,
            intrinsics: false,
            native_u128: false,
        },
        Arch::x86 => Configuration {
            arch,
            v128: false,
            v256: false,
            vale: false,
            inline_asm: false,
            intrinsics: true,
            native_u128: false,
        },
        Arch::x86_64 => Configuration {
            arch,
            v128: false,
            v256: false,
            vale: true,
            inline_asm: true,
            intrinsics: true,
            native_u128: false,
        },
    }
}

/// The portable configuration of an architecture: every capability off.
pub open spec fn minimal(arch: Arch) -> Configuration {
    Configuration {
        arch,
        v128: false,
        v256: false,
        vale: false,
        inline_asm: false,
        intrinsics: false,
        native_u128: false,
    }
}

/// The configuration of `arch`: its baseline, or with the failsafe override
/// the minimal one.
pub open spec fn row(arch: Arch, failsafe: bool) -> Configuration {
    if failsafe {
        minimal(arch)
    } else {
        baseline(arch)
    }
}

/// What resolving `id` gives, with or without the failsafe override.
pub open spec fn resolved(id: Seq<char>, failsafe: bool) -> Result<Configuration, BuildError> {
    match arch_of_id(id) {
        None => Err(BuildError::UnsupportedArchitecture),
        Some(arch) => Ok(row(arch, failsafe)),
    }
}

/// Whether the configuration holds together: vale is only available on x86_64.
pub open spec fn consistent(c: Configuration) -> bool {
    c.vale ==> c.arch == Arch::x86_64
}

/// Maps a target architecture identifier to an architecture.
pub fn parse_arch(id: &str) -> (r: Result<Arch, BuildError>)
    ensures
        r == (match arch_of_id(id@) {
            Some(a) => Ok(a),
            None => Err(BuildError::UnsupportedArchitecture),
        }),
{
    if same_text(id, "arm") || same_text(id, "aarch64") {
        proof {
            reveal_strlit("arm");
            reveal_strlit("aarch64");
        }
        Ok(Arch::arm)
    } else if same_text(id, "x86") {
        proof {
            reveal_strlit("x86");
        }
        Ok(Arch::x86)
    } else if same_text(id, "x86_64") {
        proof {
            reveal_strlit("x86_64");
        }
        Ok(Arch::x86_64)
    } else {
        proof {
            reveal_strlit("arm");
            reveal_strlit("aarch64");
            reveal_strlit("x86");
            reveal_strlit("x86_64");
        }
        Err(BuildError::UnsupportedArchitecture)
    }
}

impl Configuration {
    /// Resolves the configuration for the target architecture `target_arch`;
    /// with `failsafe` set, every capability is turned off.
    pub fn new(target_arch: &str, failsafe: bool) -> (r: Result<Configuration, BuildError>)
        ensures
            r == resolved(target_arch@, failsafe),
            r is Ok ==> consistent(r->Ok_0),
    {
        if failsafe {
            return Self::failsafe(target_arch);
        }
        match parse_arch(target_arch) {
            Err(e) => Err(e),
            Ok(Arch::arm) => Ok(Configuration {
                arch: Arch::arm,
                v128: false,
                v256: false,
                vale: false,
                inline_asm: false,
                intrinsics: false,
                native_u128: false,
            }),
            Ok(Arch::x86) => Ok(Configuration {
                arch: Arch::x86,
                v128: false,
                v256: false,
                vale: false,
                inline_asm: false,
                intrinsics: true,
                native_u128: false,
            }),
            Ok(Arch::x86_64) => Ok(Configuration {
                arch: Arch::x86_64,
                v128: false,
                v256: false,
                vale: true,
                inline_asm: true,
                intrinsics: true,
                native_u128: false,
            }),
        }
    }

    /// Resolves the minimal, portable configuration for `target_arch`.
    pub fn failsafe(target_arch: &str) -> (r: Result<Configuration, BuildError>)
        ensures
            r == resolved(target_arch@, true),
            r is Ok ==> consistent(r->Ok_0),
    {
        match parse_arch(target_arch) {
            Err(e) => Err(e),
            Ok(arch) => Ok(Configuration {
                arch,
                v128: false,
                v256: false,
                vale: false,
                inline_asm: false,
                intrinsics: false,
                native_u128: false,
            }),
        }
    }
}


/// The recognised identifiers: "arm" and "aarch64" name arm, "x86" and
/// "x86_64" name themselves; without the override each resolves to its row of
/// the capability table, with it to the configuration with every capability off.
pub proof fn lemma_known_identifiers(failsafe: bool)
    ensures
        resolved("arm"@, failsafe) == Ok::<Configuration, BuildError>(row(Arch::arm, failsafe)),
        resolved("aarch64"@, failsafe) == Ok::<Configuration, BuildError>(row(Arch::arm, failsafe)),
        resolved("x86"@, failsafe) == Ok::<Configuration, BuildError>(row(Arch::x86, failsafe)),
        resolved("x86_64"@, failsafe) == Ok::<Configuration, BuildError>(row(Arch::x86_64, failsafe)),
        forall|a: Arch| {
            let m = #[trigger] minimal(a);
            !m.v128 && !m.v256 && !m.vale && !m.inline_asm && !m.intrinsics && !m.native_u128
        },
        forall|a: Arch| consistent(#[trigger] baseline(a)),
{
    reveal_strlit("arm");
    reveal_strlit("aarch64");
    reveal_strlit("x86");
    reveal_strlit("x86_64");
    assert("x86"@[0] != "arm"@[0]);
    assert("x86"@.len() != "aarch64"@.len());
    assert("x86_64"@.len() != "arm"@.len());
    assert("x86_64"@.len() != "aarch64"@.len());
    assert("x86_64"@.len() != "x86"@.len());
}

/// An unrecognised identifier is refused, with or without the override.
pub proof fn lemma_unknown_identifier(id: Seq<char>, failsafe: bool)
    requires
        arch_of_id(id) is None,
    ensures
        resolved(id, failsafe) == Err::<Configuration, BuildError>(BuildError::UnsupportedArchitecture),
{
}

} // verus!
