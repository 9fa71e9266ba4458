//! What the native build is given: the configuration header, the C and
//! assembly sources, and the include paths.
use vstd::prelude::*;
use crate::config::{Arch, Configuration};
use crate::files::{added, kept, lemma_kept, lemma_kept_twice, texts, Entry, FileList, Pattern};
use crate::text::{occurs_in, same_text};

verus! {

/// The current distribution's "c89-compatible" folder
pub const DIST_C89: &'static str = "vendored/v0.4.5-dist/c89-compatible";

/// The current distribution's KaRaMeL include folder
pub const DIST_KARAMEL_INCLUDE: &'static str = "vendored/v0.4.5-dist/kremlin/include";

/// The current distribution's KaRaMeL mini-dist include folder
pub const DIST_KARAMEL_MINIMAL_INCLUDE: &'static str = "vendored/v0.4.5-dist/kremlin/kremlib/dist/minimal";

/// The name of the static library that is built
pub const LIBRARY_NAME: &'static str = "evercrypt";

/// The header line that selects the target architecture.
pub open spec fn arch_line(c: Configuration) -> Seq<char> {
    match c.arch {
        Arch::arm => if !c.v128 {
            "#define TARGET_ARCHITECTURE TARGET_ARCHITECTURE_ID_ARM7"@
        } else {
            "#define TARGET_ARCHITECTURE TARGET_ARCHITECTURE_ID_ARM8"@
        },
        Arch::x86 => "#define TARGET_ARCHITECTURE TARGET_ARCHITECTURE_ID_X86"@,
        Arch::x86_64 => "#define TARGET_ARCHITECTURE TARGET_ARCHITECTURE_ID_X64"@,
    }
}

/// The macro that turns on 128-bit vector code.
pub open spec fn vec128_enabled() -> Seq<char> {
    "#define HACL_CAN_COMPILE_VEC128 1"@
}

/// The stand-in for the 128-bit vector type when vector code is off.
pub open spec fn vec128_placeholder() -> Seq<char> {
    "#define Lib_IntVector_Intrinsics_vec128 void *"@
}

/// The lines of the configuration header, in order.
pub open spec fn header_lines(c: Configuration) -> Seq<Seq<char>> {
    seq![
        arch_line(c),
        if c.intrinsics {
            "#define HACL_CAN_COMPILE_INTRINSICS 1"@
        } else {
            "// #define HACL_CAN_COMPILE_INTRINSICS 1"@
        },
        if c.vale {
            "#define HACL_CAN_COMPILE_VALE 1"@
        } else {
            "// #define HACL_CAN_COMPILE_VALE 1"@
        },
        if c.inline_asm {
            "#define HACL_CAN_COMPILE_INLINE_ASM 1"@
        } else {
            "// #define HACL_CAN_COMPILE_INLINE_ASM 1"@
        },
        if c.v128 {
            vec128_enabled()
        } else {
            vec128_placeholder()
        },
        if c.v256 {
            "#define HACL_CAN_COMPILE_VEC256 1"@
        } else {
            "#define Lib_IntVector_Intrinsics_vec256 void *"@
        },
        if c.native_u128 {
            "#define HACL_CAN_COMPILE_UINT128 1"@
        } else {
            "// #define HACL_CAN_COMPILE_UINT128 1"@
        },
        "#define LINUX_NO_EXPLICIT_BZERO 1"@,
    ]
}

/// Each line of `ls` followed by a line break.
pub open spec fn lines_text(ls: Seq<Seq<char>>) -> Seq<char>
    decreases ls.len(),
{
    if ls.len() == 0 {
        Seq::empty()
    } else {
        lines_text(ls.drop_last()) + ls.last() + "\n"@
    }
}

/// The configuration header: an empty line, the header lines, an empty line.
pub open spec fn header_text(c: Configuration) -> Seq<char> {
    lines_text(seq![Seq::empty()] + header_lines(c) + seq![Seq::empty()])
}

/// Whether `n` is a C source file.
pub open spec fn is_c_source(n: Seq<char>) -> bool {
    ".c"@.is_suffix_of(n)
}

/// Whether a C source is left out because the configuration turns off the
/// capability it is written for.
pub open spec fn c_excluded(c: Configuration, n: Seq<char>) -> bool {
    ||| !c.vale && (("Hacl_HPKE_Curve64_"@.is_prefix_of(n) && is_c_source(n)) || n
        == "Hacl_Curve25519_64.c"@ || n == "evercrypt_vale_stubs.c"@)
    ||| !c.v128 && ((occurs_in("CP128"@, n) && is_c_source(n)) || "_128.c"@.is_suffix_of(n)
        || "_Vec128.c"@.is_suffix_of(n))
    ||| !c.v256 && ((occurs_in("CP256"@, n) && is_c_source(n)) || "_256.c"@.is_suffix_of(n)
        || "_Vec256.c"@.is_suffix_of(n))
}

/// The C sources of the directory `root`, whose entries are `listing`.
pub open spec fn c_selection(c: Configuration, root: Seq<char>, listing: Seq<Seq<char>>) -> Seq<
    Entry,
> {
    kept(
        added(Seq::empty(), root, listing, |n: Seq<char>| is_c_source(n)),
        |n: Seq<char>| c_excluded(c, n),
    )
}

/// The operating system token and file extension of the assembly sources
/// for a target OS and environment, if there are any.
pub open spec fn asm_flavor(os: Seq<char>, env: Seq<char>) -> Option<(Seq<char>, Seq<char>)> {
    if os == "macos"@ || os == "ios"@ {
        Some(("darwin"@, "S"@))
    } else if os == "linux"@ {
        Some(("linux"@, "S"@))
    } else if os == "windows"@ {
        if env == "msvc"@ {
            Some(("msvc"@, "asm"@))
        } else if env == "gnu"@ {
            Some(("linux"@, "S"@))
        } else {
            None
        }
    } else {
        Some(("linux"@, "S"@))
    }
}

/// The file name ending of the assembly sources, if any are built.
pub open spec fn asm_suffix_of(c: Configuration, os: Seq<char>, env: Seq<char>) -> Option<Seq<char>> {
    if c.vale && c.arch == Arch::x86_64 {
        match asm_flavor(os, env) {
            Some((tok, ext)) => Some("-"@ + "x86_64"@ + "-"@ + tok + "."@ + ext),
            None => None,
        }
    } else {
        None
    }
}

/// The assembly sources of the directory `root`, whose entries are `listing`.
pub open spec fn asm_selection(
    c: Configuration,
    os: Seq<char>,
    env: Seq<char>,
    root: Seq<char>,
    listing: Seq<Seq<char>>,
) -> Seq<Entry> {
    match asm_suffix_of(c, os, env) {
        Some(sfx) => added(Seq::empty(), root, listing, |n: Seq<char>| sfx.is_suffix_of(n)),
        None => Seq::empty(),
    }
}

/// A builder for the library.
#[derive(Debug)]
pub struct Make {
    /// The platform configuration
    pub config: Configuration,
}

/// Appends `line` and a line break to `h`.
fn push_line(h: &mut String, line: &str)
    ensures
        final(h)@ == old(h)@ + line@ + "\n"@,
{
    h.append(line);
    h.append("\n");
}

/// Removes from `list`, which is `s0` less what `before` holds of, the names
/// that `pat` matches; `pat` matches exactly what `drop` holds of.
fn remove_more(
    list: &mut FileList,
    pat: Pattern,
    Ghost(s0): Ghost<Seq<Entry>>,
    Ghost(before): Ghost<spec_fn(Seq<char>) -> bool>,
    Ghost(drop): Ghost<spec_fn(Seq<char>) -> bool>,
)
    requires
        old(list).wf(),
        old(list)@ == kept(s0, before),
        forall|n: Seq<char>| pat.accepts(n) == drop(n),
    ensures
        final(list).wf(),
        final(list)@ == kept(s0, |n: Seq<char>| before(n) || drop(n)),
{
    list.remove(&pat);
    assert((|n: Seq<char>| pat.accepts(n)) =~= drop);
    proof {
        lemma_kept_twice(s0, before, drop);
    }
}

impl Make {
    /// Creates a new builder.
    pub fn new(config: Configuration) -> (r: Make)
        ensures
            r.config == config,
    {
        Make { config }
    }

    /// The configuration header.
    pub fn config_h(&self) -> (r: String)
        ensures
            r@ == header_text(self.config),
    {
        let c = self.config;
        let target_arch = match c.arch {
            Arch::arm => if !c.v128 {
                "#define TARGET_ARCHITECTURE TARGET_ARCHITECTURE_ID_ARM7"
            } else {
                "#define TARGET_ARCHITECTURE TARGET_ARCHITECTURE_ID_ARM8"
            },
            Arch::x86 => "#define TARGET_ARCHITECTURE TARGET_ARCHITECTURE_ID_X86",
            Arch::x86_64 => "#define TARGET_ARCHITECTURE TARGET_ARCHITECTURE_ID_X64",
        };
        let intrinsics = if c.intrinsics {
            "#define HACL_CAN_COMPILE_INTRINSICS 1"
        } else {
            "// #define HACL_CAN_COMPILE_INTRINSICS 1"
        };
        let vale = if c.vale {
            "#define HACL_CAN_COMPILE_VALE 1"
        } else {
            "// #define HACL_CAN_COMPILE_VALE 1"
        };
        let inline_asm = if c.inline_asm {
            "#define HACL_CAN_COMPILE_INLINE_ASM 1"
        } else {
            "// #define HACL_CAN_COMPILE_INLINE_ASM 1"
        };
        let v128 = if c.v128 {
            "#define HACL_CAN_COMPILE_VEC128 1"
        } else {
            "#define Lib_IntVector_Intrinsics_vec128 void *"
        };
        let v256 = if c.v256 {
            "#define HACL_CAN_COMPILE_VEC256 1"
        } else {
            "#define Lib_IntVector_Intrinsics_vec256 void *"
        };
        let native_u128 = if c.native_u128 {
            "#define HACL_CAN_COMPILE_UINT128 1"
        } else {
            "// #define HACL_CAN_COMPILE_UINT128 1"
        };
        let mut h = String::new();
        push_line(&mut h, "");
        push_line(&mut h, target_arch);
        push_line(&mut h, intrinsics);
        push_line(&mut h, vale);
        push_line(&mut h, inline_asm);
        push_line(&mut h, v128);
        push_line(&mut h, v256);
        push_line(&mut h, native_u128);
        push_line(&mut h, "#define LINUX_NO_EXPLICIT_BZERO 1");
        push_line(&mut h, "");
        proof {
            reveal_strlit("");
            let ls = seq![Seq::empty()] + header_lines(c) + seq![Seq::empty()];
            reveal_with_fuel(lines_text, 11);
            assert(ls =~= seq![
                Seq::empty(),
                header_lines(c)[0],
                header_lines(c)[1],
                header_lines(c)[2],
                header_lines(c)[3],
                header_lines(c)[4],
                header_lines(c)[5],
                header_lines(c)[6],
                header_lines(c)[7],
                Seq::empty(),
            ]);
            assert(h@ =~= lines_text(ls));
        }
        h
    }

    /// The C sources of `root`, whose entries are `listing`, that this
    /// configuration builds.
    pub fn c_sources(&self, root: &str, listing: &Vec<String>) -> (r: FileList)
        ensures
            r.wf(),
            r@ == c_selection(self.config, root@, texts(listing@)),
    {
        let c = self.config;
        let mut list = FileList::new();
        let c_ext = Pattern::End(String::from_str(".c"));
        list.add(root, listing, &c_ext);
        assert((|n: Seq<char>| c_ext.accepts(n)) =~= (|n: Seq<char>| is_c_source(n)));
        let ghost s0 = list@;
        let ghost mut gone = |n: Seq<char>| false;
        proof {
            lemma_kept(s0, gone);
        }
        // Blacklist x64 assembly files
        if !c.vale {
            let p = Pattern::Start(String::from_str("Hacl_HPKE_Curve64_")).combine(
                Pattern::End(String::from_str(".c")),
            );
            let ghost d = |n: Seq<char>| "Hacl_HPKE_Curve64_"@.is_prefix_of(n) && is_c_source(n);
            remove_more(&mut list, p, Ghost(s0), Ghost(gone), Ghost(d));
            proof {
                gone = |n: Seq<char>| gone(n) || d(n);
            }
            let p = Pattern::Exact(String::from_str("Hacl_Curve25519_64.c"));
            let ghost d = |n: Seq<char>| n == "Hacl_Curve25519_64.c"@;
            remove_more(&mut list, p, Ghost(s0), Ghost(gone), Ghost(d));
            proof {
                gone = |n: Seq<char>| gone(n) || d(n);
            }
            let p = Pattern::Exact(String::from_str("evercrypt_vale_stubs.c"));
            let ghost d = |n: Seq<char>| n == "evercrypt_vale_stubs.c"@;
            remove_more(&mut list, p, Ghost(s0), Ghost(gone), Ghost(d));
            proof {
                gone = |n: Seq<char>| gone(n) || d(n);
            }
        }
        // Blacklist 128-bit vector arithmetic files
        if !c.v128 {
            let p = Pattern::Contains(String::from_str("CP128")).combine(
                Pattern::End(String::from_str(".c")),
            );
            let ghost d = |n: Seq<char>| occurs_in("CP128"@, n) && is_c_source(n);
            remove_more(&mut list, p, Ghost(s0), Ghost(gone), Ghost(d));
            proof {
                gone = |n: Seq<char>| gone(n) || d(n);
            }
            let p = Pattern::End(String::from_str("_128.c"));
            let ghost d = |n: Seq<char>| "_128.c"@.is_suffix_of(n);
            remove_more(&mut list, p, Ghost(s0), Ghost(gone), Ghost(d));
            proof {
                gone = |n: Seq<char>| gone(n) || d(n);
            }
            let p = Pattern::End(String::from_str("_Vec128.c"));
            let ghost d = |n: Seq<char>| "_Vec128.c"@.is_suffix_of(n);
            remove_more(&mut list, p, Ghost(s0), Ghost(gone), Ghost(d));
            proof {
                gone = |n: Seq<char>| gone(n) || d(n);
            }
        }
        // Blacklist 256-bit vector arithmetic files
        if !c.v256 {
            let p = Pattern::Contains(String::from_str("CP256")).combine(
                Pattern::End(String::from_str(".c")),
            );
            let ghost d = |n: Seq<char>| occurs_in("CP256"@, n) && is_c_source(n);
            remove_more(&mut list, p, Ghost(s0), Ghost(gone), Ghost(d));
            proof {
                gone = |n: Seq<char>| gone(n) || d(n);
            }
            let p = Pattern::End(String::from_str("_256.c"));
            let ghost d = |n: Seq<char>| "_256.c"@.is_suffix_of(n);
            remove_more(&mut list, p, Ghost(s0), Ghost(gone), Ghost(d));
            proof {
                gone = |n: Seq<char>| gone(n) || d(n);
            }
            let p = Pattern::End(String::from_str("_Vec256.c"));
            let ghost d = |n: Seq<char>| "_Vec256.c"@.is_suffix_of(n);
            remove_more(&mut list, p, Ghost(s0), Ghost(gone), Ghost(d));
            proof {
                gone = |n: Seq<char>| gone(n) || d(n);
            }
        }
        assert(gone =~= (|n: Seq<char>| c_excluded(c, n)));
        list
    }

    /// The file name ending of the assembly sources for the target OS `os`
    /// and environment `env`; `None` when no assembly is built.
    pub fn asm_suffix(&self, os: &str, env: &str) -> (r: Option<String>)
        ensures
            match r {
                Some(sfx) => asm_suffix_of(self.config, os@, env@) == Some(sfx@),
                None => asm_suffix_of(self.config, os@, env@) is None,
            },
    {
        if !self.config.vale {
            return None;
        }
        // Vale assembly is only available for x86_64
        let arch = match self.config.arch {
            Arch::x86_64 => "x86_64",
            _ => return None,
        };
        let (tok, ext) = if same_text(os, "macos") || same_text(os, "ios") {
            ("darwin", "S")
        } else if same_text(os, "linux") {
            ("linux", "S")
        } else if same_text(os, "windows") {
            if same_text(env, "msvc") {
                ("msvc", "asm")
            } else if same_text(env, "gnu") {
                ("linux", "S")
            } else {
                return None;
            }
        } else {
            ("linux", "S")
        };
        let mut sfx = String::from_str("-");
        sfx.append(arch);
        sfx.append("-");
        sfx.append(tok);
        sfx.append(".");
        sfx.append(ext);
        Some(sfx)
    }

    /// The assembly sources of `root`, whose entries are `listing`, for the
    /// target OS `os` and environment `env`.
    pub fn asm_sources(&self, os: &str, env: &str, root: &str, listing: &Vec<String>) -> (r:
        FileList)
        ensures
            r.wf(),
            r@ == asm_selection(self.config, os@, env@, root@, texts(listing@)),
    {
        let mut list = FileList::new();
        match self.asm_suffix(os, env) {
            Some(sfx) => {
                let ghost sv = sfx@;
                let pat = Pattern::End(sfx);
                list.add(root, listing, &pat);
                assert((|n: Seq<char>| pat.accepts(n)) =~= (|n: Seq<char>| sv.is_suffix_of(n)));
            },
            None => {},
        }
        list
    }

    /// The warnings switched off in the native build, where the compiler
    /// knows them.
    pub fn warning_flags(&self) -> (r: Vec<String>)
        ensures
            texts(r@) == seq![
                "-Wno-unused-parameter"@,
                "-Wno-unused-variable"@,
                "-Wno-unused-but-set-variable"@,
                "-Wno-unused-function"@,
                "-Wno-cpp"@,
            ],
    {
        let r = vec![
            String::from_str("-Wno-unused-parameter"),
            String::from_str("-Wno-unused-variable"),
            String::from_str("-Wno-unused-but-set-variable"),
            String::from_str("-Wno-unused-function"),
            String::from_str("-Wno-cpp"),
        ];
        assert(texts(r@) =~= seq![
            "-Wno-unused-parameter"@,
            "-Wno-unused-variable"@,
            "-Wno-unused-but-set-variable"@,
            "-Wno-unused-function"@,
            "-Wno-cpp"@,
        ]);
        r
    }

    /// The include paths of the native build.
    pub fn includes(&self) -> (r: Vec<String>)
        ensures
            texts(r@) == seq![DIST_C89@, DIST_KARAMEL_INCLUDE@, DIST_KARAMEL_MINIMAL_INCLUDE@],
    {
        let r = vec![
            String::from_str(DIST_C89),
            String::from_str(DIST_KARAMEL_INCLUDE),
            String::from_str(DIST_KARAMEL_MINIMAL_INCLUDE),
        ];
        assert(texts(r@) =~= seq![DIST_C89@, DIST_KARAMEL_INCLUDE@, DIST_KARAMEL_MINIMAL_INCLUDE@]);
        r
    }
}


/// Without 128-bit vector support the header stands the vector type in with
/// a placeholder and does not turn vector code on; with it, the reverse.
pub proof fn lemma_header_vec128(c: Configuration)
    ensures
        !c.v128 ==> header_lines(c).contains(vec128_placeholder()) && !header_lines(c).contains(
            vec128_enabled(),
        ),
        c.v128 ==> header_lines(c).contains(vec128_enabled()) && !header_lines(c).contains(
            vec128_placeholder(),
        ),
{
    reveal_strlit("#define TARGET_ARCHITECTURE TARGET_ARCHITECTURE_ID_ARM7");
    reveal_strlit("#define TARGET_ARCHITECTURE TARGET_ARCHITECTURE_ID_ARM8");
    reveal_strlit("#define TARGET_ARCHITECTURE TARGET_ARCHITECTURE_ID_X86");
    reveal_strlit("#define TARGET_ARCHITECTURE TARGET_ARCHITECTURE_ID_X64");
    reveal_strlit("#define HACL_CAN_COMPILE_INTRINSICS 1");
    reveal_strlit("// #define HACL_CAN_COMPILE_INTRINSICS 1");
    reveal_strlit("#define HACL_CAN_COMPILE_VALE 1");
    reveal_strlit("// #define HACL_CAN_COMPILE_VALE 1");
    reveal_strlit("#define HACL_CAN_COMPILE_INLINE_ASM 1");
    reveal_strlit("// #define HACL_CAN_COMPILE_INLINE_ASM 1");
    reveal_strlit("#define HACL_CAN_COMPILE_VEC128 1");
    reveal_strlit("#define Lib_IntVector_Intrinsics_vec128 void *");
    reveal_strlit("#define HACL_CAN_COMPILE_VEC256 1");
    reveal_strlit("#define Lib_IntVector_Intrinsics_vec256 void *");
    reveal_strlit("#define HACL_CAN_COMPILE_UINT128 1");
    reveal_strlit("// #define HACL_CAN_COMPILE_UINT128 1");
    reveal_strlit("#define LINUX_NO_EXPLICIT_BZERO 1");
    assert("#define TARGET_ARCHITECTURE TARGET_ARCHITECTURE_ID_ARM7"@.len() != "#define HACL_CAN_COMPILE_VEC128 1"@.len());
    assert("#define TARGET_ARCHITECTURE TARGET_ARCHITECTURE_ID_ARM8"@.len() != "#define HACL_CAN_COMPILE_VEC128 1"@.len());
    assert("#define TARGET_ARCHITECTURE TARGET_ARCHITECTURE_ID_X86"@.len() != "#define HACL_CAN_COMPILE_VEC128 1"@.len());
    assert("#define TARGET_ARCHITECTURE TARGET_ARCHITECTURE_ID_X64"@.len() != "#define HACL_CAN_COMPILE_VEC128 1"@.len());
    assert("#define HACL_CAN_COMPILE_INTRINSICS 1"@.len() != "#define HACL_CAN_COMPILE_VEC128 1"@.len());
    assert("// #define HACL_CAN_COMPILE_INTRINSICS 1"@.len() != "#define HACL_CAN_COMPILE_VEC128 1"@.len());
    assert("#define HACL_CAN_COMPILE_VALE 1"@.len() != "#define HACL_CAN_COMPILE_VEC128 1"@.len());
    assert("// #define HACL_CAN_COMPILE_VALE 1"@.len() != "#define HACL_CAN_COMPILE_VEC128 1"@.len());
    assert("#define HACL_CAN_COMPILE_INLINE_ASM 1"@.len() != "#define HACL_CAN_COMPILE_VEC128 1"@.len());
    assert("// #define HACL_CAN_COMPILE_INLINE_ASM 1"@.len() != "#define HACL_CAN_COMPILE_VEC128 1"@.len());
    assert("#define HACL_CAN_COMPILE_VEC256 1"@[28] != "#define HACL_CAN_COMPILE_VEC128 1"@[28]);
    assert("#define Lib_IntVector_Intrinsics_vec256 void *"@.len() != "#define HACL_CAN_COMPILE_VEC128 1"@.len());
    assert("#define HACL_CAN_COMPILE_UINT128 1"@.len() != "#define HACL_CAN_COMPILE_VEC128 1"@.len());
    assert("// #define HACL_CAN_COMPILE_UINT128 1"@.len() != "#define HACL_CAN_COMPILE_VEC128 1"@.len());
    assert("#define LINUX_NO_EXPLICIT_BZERO 1"@[8] != "#define HACL_CAN_COMPILE_VEC128 1"@[8]);
    assert("#define Lib_IntVector_Intrinsics_vec128 void *"@.len() != "#define HACL_CAN_COMPILE_VEC128 1"@.len());
    assert("#define TARGET_ARCHITECTURE TARGET_ARCHITECTURE_ID_ARM7"@.len() != "#define Lib_IntVector_Intrinsics_vec128 void *"@.len());
    assert("#define TARGET_ARCHITECTURE TARGET_ARCHITECTURE_ID_ARM8"@.len() != "#define Lib_IntVector_Intrinsics_vec128 void *"@.len());
    assert("#define TARGET_ARCHITECTURE TARGET_ARCHITECTURE_ID_X86"@.len() != "#define Lib_IntVector_Intrinsics_vec128 void *"@.len());
    assert("#define TARGET_ARCHITECTURE TARGET_ARCHITECTURE_ID_X64"@.len() != "#define Lib_IntVector_Intrinsics_vec128 void *"@.len());
    assert("#define HACL_CAN_COMPILE_INTRINSICS 1"@.len() != "#define Lib_IntVector_Intrinsics_vec128 void *"@.len());
    assert("// #define HACL_CAN_COMPILE_INTRINSICS 1"@.len() != "#define Lib_IntVector_Intrinsics_vec128 void *"@.len());
    assert("#define HACL_CAN_COMPILE_VALE 1"@.len() != "#define Lib_IntVector_Intrinsics_vec128 void *"@.len());
    assert("// #define HACL_CAN_COMPILE_VALE 1"@.len() != "#define Lib_IntVector_Intrinsics_vec128 void *"@.len());
    assert("#define HACL_CAN_COMPILE_INLINE_ASM 1"@.len() != "#define Lib_IntVector_Intrinsics_vec128 void *"@.len());
    assert("// #define HACL_CAN_COMPILE_INLINE_ASM 1"@.len() != "#define Lib_IntVector_Intrinsics_vec128 void *"@.len());
    assert("#define HACL_CAN_COMPILE_VEC256 1"@.len() != "#define Lib_IntVector_Intrinsics_vec128 void *"@.len());
    assert("#define Lib_IntVector_Intrinsics_vec256 void *"@[36] != "#define Lib_IntVector_Intrinsics_vec128 void *"@[36]);
    assert("#define HACL_CAN_COMPILE_UINT128 1"@.len() != "#define Lib_IntVector_Intrinsics_vec128 void *"@.len());
    assert("// #define HACL_CAN_COMPILE_UINT128 1"@.len() != "#define Lib_IntVector_Intrinsics_vec128 void *"@.len());
    assert("#define LINUX_NO_EXPLICIT_BZERO 1"@.len() != "#define Lib_IntVector_Intrinsics_vec128 void *"@.len());
    let ls = header_lines(c);
    assert(ls[4] == if c.v128 {
        vec128_enabled()
    } else {
        vec128_placeholder()
    });
}

/// Vale assembly is gated on the architecture and the vale flag: off
/// x86_64, or with vale off, no assembly is selected whatever the OS and
/// environment.
pub proof fn lemma_asm_gated(
    c: Configuration,
    os: Seq<char>,
    env: Seq<char>,
    root: Seq<char>,
    listing: Seq<Seq<char>>,
)
    requires
        c.arch != Arch::x86_64 || !c.vale,
    ensures
        asm_suffix_of(c, os, env) is None,
        asm_selection(c, os, env, root, listing).len() == 0,
{
}

/// The header is a function of the configuration alone: equal configurations
/// give the same text.
pub proof fn lemma_header_deterministic(a: Configuration, b: Configuration)
    requires
        a == b,
    ensures
        header_text(a) == header_text(b),
{
}

} // verus!
