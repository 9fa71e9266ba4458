use evercrypt_tiny_sys::bindings::generate;
use evercrypt_tiny_sys::config::{Arch, BuildError, Configuration};
use evercrypt_tiny_sys::files::{FileList, Pattern};
use evercrypt_tiny_sys::make::{Make, DIST_C89};

fn names(list: &[&str]) -> Vec<String> {
    list.iter().map(|s| s.to_string()).collect()
}

fn pat_start(s: &str) -> Pattern {
    Pattern::Start(s.to_string())
}

fn pat_end(s: &str) -> Pattern {
    Pattern::End(s.to_string())
}

fn all_off(arch: Arch) -> Configuration {
    Configuration {
        arch,
        v128: false,
        v256: false,
        vale: false,
        inline_asm: false,
        intrinsics: false,
        native_u128: false,
    }
}

#[test]
fn resolve_arm_aliases() {
    for id in ["arm", "aarch64"] {
        assert_eq!(Configuration::new(id, false), Ok(all_off(Arch::arm)));
        assert_eq!(Configuration::new(id, true), Ok(all_off(Arch::arm)));
    }
}

#[test]
fn resolve_x86() {
    let c = Configuration::new("x86", false).unwrap();
    assert_eq!(c, Configuration { intrinsics: true, ..all_off(Arch::x86) });
    assert_eq!(Configuration::new("x86", true), Ok(all_off(Arch::x86)));
}

#[test]
fn resolve_x86_64() {
    let c = Configuration::new("x86_64", false).unwrap();
    assert_eq!(
        c,
        Configuration { vale: true, inline_asm: true, intrinsics: true, ..all_off(Arch::x86_64) }
    );
    assert_eq!(Configuration::new("x86_64", true), Ok(all_off(Arch::x86_64)));
    assert_eq!(Configuration::failsafe("x86_64"), Ok(all_off(Arch::x86_64)));
}

#[test]
fn resolve_unknown_architecture() {
    for id in ["riscv64", "", "X86", "x86_64 ", "mips"] {
        assert_eq!(Configuration::new(id, false), Err(BuildError::UnsupportedArchitecture));
        assert_eq!(Configuration::new(id, true), Err(BuildError::UnsupportedArchitecture));
        assert_eq!(Configuration::failsafe(id), Err(BuildError::UnsupportedArchitecture));
    }
}

#[test]
fn pattern_start_end_contains_exact() {
    assert!(pat_start("foo").matches("foobar"));
    assert!(!pat_start("foo").matches("barfoo"));
    assert!(pat_end("bar").matches("foobar"));
    assert!(!pat_end("bar").matches("barfoo"));
    assert!(Pattern::Contains("oob".to_string()).matches("foobar"));
    assert!(!Pattern::Contains("obo".to_string()).matches("foobar"));
    assert!(Pattern::Exact("foobar".to_string()).matches("foobar"));
    assert!(!Pattern::Exact("foobar".to_string()).matches("foobarx"));
    assert!(!Pattern::Exact("foobar".to_string()).matches("fooba"));
    assert!(pat_start("").matches(""));
    assert!(!pat_end("long").matches("ng"));
}

#[test]
fn pattern_combination_is_conjunction() {
    let p = pat_start("Hacl").combine(pat_end(".c"));
    assert!(p.matches("Hacl_Foo.c"));
    assert!(!p.matches("Other.c"));
    assert!(!p.matches("Hacl_Foo.h"));
    let q = p.combine(Pattern::Contains("Foo".to_string()));
    assert!(q.matches("Hacl_Foo.c"));
    assert!(!q.matches("Hacl_Bar.c"));
    assert!(Pattern::Multi(Vec::new()).matches("anything"));
}

#[test]
fn file_list_orders_and_dedups() {
    let mut list = FileList::new();
    list.add("d", &names(&["b.c", "a.c", "c.h", "b.c"]), &pat_end(".c"));
    list.add("e", &names(&["a.c", "Z.c"]), &pat_end(".c"));
    assert_eq!(list.names(), names(&["Z.c", "a.c", "b.c"]));
    assert_eq!(list.paths(), names(&["e/Z.c", "e/a.c", "d/b.c"]));
    assert_eq!(list.len(), 3);
}

#[test]
fn file_list_remove_none_and_all() {
    let mut list = FileList::new();
    list.add("d", &names(&["x.c", "y.c", "w.c"]), &pat_end(".c"));
    let before = list.names();
    list.remove(&pat_start("q"));
    assert_eq!(list.names(), before);
    assert_eq!(list.paths(), names(&["d/w.c", "d/x.c", "d/y.c"]));
    list.remove(&pat_end(".c"));
    assert_eq!(list.len(), 0);
    assert!(list.names().is_empty());
}

#[test]
fn c_sources_without_vale_or_vectors() {
    let make = Make::new(all_off(Arch::x86_64));
    let listing =
        names(&["foo.c", "foo_128.c", "foo_256.c", "Hacl_Curve25519_64.c", "evercrypt_vale_stubs.c"]);
    let list = make.c_sources(DIST_C89, &listing);
    assert_eq!(list.names(), names(&["foo.c"]));
    assert_eq!(list.paths(), vec![format!("{DIST_C89}/foo.c")]);
}

#[test]
fn c_sources_rules() {
    let listing = names(&[
        "Hacl_HPKE_Curve64_CP128_SHA256.c",
        "Hacl_HPKE_Curve64_CP128_SHA256.h",
        "Hacl_Chacha20_Vec128.c",
        "Hacl_Chacha20_Vec256.c",
        "Hacl_Hash.c",
        "Hacl_HPKE_Curve51_CP256_SHA512.c",
        "notes.txt",
    ]);
    let full = Configuration {
        v128: true,
        v256: true,
        vale: true,
        ..all_off(Arch::x86_64)
    };
    let all = Make::new(full).c_sources("src", &listing);
    assert_eq!(
        all.names(),
        names(&[
            "Hacl_Chacha20_Vec128.c",
            "Hacl_Chacha20_Vec256.c",
            "Hacl_HPKE_Curve51_CP256_SHA512.c",
            "Hacl_HPKE_Curve64_CP128_SHA256.c",
            "Hacl_Hash.c",
        ])
    );
    let no256 = Make::new(Configuration { v256: false, ..full }).c_sources("src", &listing);
    assert_eq!(
        no256.names(),
        names(&["Hacl_Chacha20_Vec128.c", "Hacl_HPKE_Curve64_CP128_SHA256.c", "Hacl_Hash.c"])
    );
    let no_vale = Make::new(Configuration { vale: false, ..full }).c_sources("src", &listing);
    assert_eq!(
        no_vale.names(),
        names(&[
            "Hacl_Chacha20_Vec128.c",
            "Hacl_Chacha20_Vec256.c",
            "Hacl_HPKE_Curve51_CP256_SHA512.c",
            "Hacl_Hash.c",
        ])
    );
}

#[test]
fn asm_suffix_table() {
    let make = Make::new(Configuration::new("x86_64", false).unwrap());
    assert_eq!(make.asm_suffix("windows", "msvc"), Some("-x86_64-msvc.asm".to_string()));
    assert_eq!(make.asm_suffix("linux", "gnu"), Some("-x86_64-linux.S".to_string()));
    assert_eq!(make.asm_suffix("macos", ""), Some("-x86_64-darwin.S".to_string()));
    assert_eq!(make.asm_suffix("ios", ""), Some("-x86_64-darwin.S".to_string()));
    assert_eq!(make.asm_suffix("windows", "gnu"), Some("-x86_64-linux.S".to_string()));
    assert_eq!(make.asm_suffix("freebsd", ""), Some("-x86_64-linux.S".to_string()));
    assert_eq!(make.asm_suffix("windows", "sgx"), None);
    let off = Make::new(Configuration::new("x86_64", true).unwrap());
    assert_eq!(off.asm_suffix("linux", "gnu"), None);
}

#[test]
fn asm_sources_by_target() {
    let listing = names(&[
        "curve25519-x86_64-linux.S",
        "curve25519-x86_64-msvc.asm",
        "curve25519-x86_64-darwin.S",
        "aesgcm-x86_64-linux.S",
        "Hacl_Hash.c",
    ]);
    let make = Make::new(Configuration::new("x86_64", false).unwrap());
    let linux = make.asm_sources("linux", "gnu", "dist", &listing);
    assert_eq!(linux.names(), names(&["aesgcm-x86_64-linux.S", "curve25519-x86_64-linux.S"]));
    assert_eq!(
        linux.paths(),
        names(&["dist/aesgcm-x86_64-linux.S", "dist/curve25519-x86_64-linux.S"])
    );
    let msvc = make.asm_sources("windows", "msvc", "dist", &listing);
    assert_eq!(msvc.names(), names(&["curve25519-x86_64-msvc.asm"]));
    let arm = Make::new(Configuration { vale: true, ..all_off(Arch::arm) });
    assert_eq!(arm.asm_suffix("linux", "gnu"), None);
    assert_eq!(arm.asm_sources("linux", "gnu", "dist", &listing).len(), 0);
    assert_eq!(arm.asm_sources("windows", "msvc", "dist", &listing).len(), 0);
}

#[test]
fn header_for_x86_64() {
    let make = Make::new(Configuration::new("x86_64", false).unwrap());
    let expected = "\n\
#define TARGET_ARCHITECTURE TARGET_ARCHITECTURE_ID_X64\n\
#define HACL_CAN_COMPILE_INTRINSICS 1\n\
#define HACL_CAN_COMPILE_VALE 1\n\
#define HACL_CAN_COMPILE_INLINE_ASM 1\n\
#define Lib_IntVector_Intrinsics_vec128 void *\n\
#define Lib_IntVector_Intrinsics_vec256 void *\n\
// #define HACL_CAN_COMPILE_UINT128 1\n\
#define LINUX_NO_EXPLICIT_BZERO 1\n\
\n";
    assert_eq!(make.config_h(), expected);
    assert_eq!(make.config_h(), make.config_h());
}

#[test]
fn header_vector_lines() {
    let off = Make::new(all_off(Arch::arm)).config_h();
    assert!(off.lines().any(|l| l == "#define Lib_IntVector_Intrinsics_vec128 void *"));
    assert!(!off.lines().any(|l| l == "#define HACL_CAN_COMPILE_VEC128 1"));
    assert!(off.lines().any(|l| l == "#define TARGET_ARCHITECTURE TARGET_ARCHITECTURE_ID_ARM7"));
    let on = Make::new(Configuration {
        v128: true,
        v256: true,
        native_u128: true,
        ..all_off(Arch::arm)
    })
    .config_h();
    assert!(on.lines().any(|l| l == "#define HACL_CAN_COMPILE_VEC128 1"));
    assert!(!on.lines().any(|l| l == "#define Lib_IntVector_Intrinsics_vec128 void *"));
    assert!(on.lines().any(|l| l == "#define HACL_CAN_COMPILE_VEC256 1"));
    assert!(on.lines().any(|l| l == "#define HACL_CAN_COMPILE_UINT128 1"));
    assert!(on.lines().any(|l| l == "#define TARGET_ARCHITECTURE TARGET_ARCHITECTURE_ID_ARM8"));
    assert!(on.lines().any(|l| l == "// #define HACL_CAN_COMPILE_INTRINSICS 1"));
}

#[test]
fn include_paths_and_flags() {
    let make = Make::new(all_off(Arch::x86));
    assert_eq!(
        make.includes(),
        names(&[
            "vendored/v0.4.5-dist/c89-compatible",
            "vendored/v0.4.5-dist/kremlin/include",
            "vendored/v0.4.5-dist/kremlin/kremlib/dist/minimal",
        ])
    );
    assert_eq!(make.warning_flags().len(), 5);
    assert_eq!(make.warning_flags()[4], "-Wno-cpp");
}

#[test]
fn bindings_settings() {
    let s = generate();
    assert_eq!(s.allowlist, names(&["EverCrypt_.*", "Spec_.*", "Hacl_.*"]));
    assert_eq!(s.blocklist_functions.len(), 6);
    assert_eq!(s.clang_args[0], "-Ivendored/v0.4.5-dist/c89-compatible");
    assert_eq!(s.header, "src/bindgen/bindgen.h");
    assert_eq!(s.output, "src/bindgen/bindgen.rs");
}
