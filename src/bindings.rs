//! The settings with which the foreign-function bindings are generated.
use vstd::prelude::*;
use crate::files::texts;
use crate::make::{DIST_C89, DIST_KARAMEL_INCLUDE, DIST_KARAMEL_MINIMAL_INCLUDE};

verus! {

/// What the binding generator is told.
#[derive(Debug)]
pub struct BindingsSettings {
    /// Name patterns of the functions, types and variables to bind
    pub allowlist: Vec<String>,
    /// Functions left out because their signatures use a non-FFI-safe u128
    pub blocklist_functions: Vec<String>,
    /// Arguments handed to the C parser
    pub clang_args: Vec<String>,
    /// The header to bind
    pub header: String,
    /// The file the bindings are written to
    pub output: String,
}

/// The argument that adds `dir` to the C parser's include path.
pub open spec fn include_arg(dir: Seq<char>) -> Seq<char> {
    "-I"@ + dir
}

fn include_flag(dir: &str) -> (r: String)
    ensures
        r@ == include_arg(dir@),
{
    let mut r = String::from_str("-I");
    r.append(dir);
    r
}

/// Generates the bindings' settings.
pub fn generate() -> (r: BindingsSettings)
    ensures
        texts(r.allowlist@) == seq!["EverCrypt_.*"@, "Spec_.*"@, "Hacl_.*"@],
        texts(r.blocklist_functions@) == seq![
            "Hacl_Blake2b_32_blake2b_update_multi"@,
            "Hacl_Blake2b_32_blake2b_update_last"@,
            "Hacl_Hash_SHA2_update_last_384"@,
            "Hacl_Hash_SHA2_update_last_512"@,
            "Hacl_Blake2b_256_blake2b_update_multi"@,
            "Hacl_Blake2b_256_blake2b_update_last"@,
        ],
        texts(r.clang_args@) == seq![
            include_arg(DIST_C89@),
            include_arg(DIST_KARAMEL_INCLUDE@),
            include_arg(DIST_KARAMEL_MINIMAL_INCLUDE@),
        ],
        r.header@ == "src/bindgen/bindgen.h"@,
        r.output@ == "src/bindgen/bindgen.rs"@,
{
    // Allow EverCrypt, Spec and Hacl symbols
    let allowlist = vec![
        String::from_str("EverCrypt_.*"),
        String::from_str("Spec_.*"),
        String::from_str("Hacl_.*"),
    ];
    // Block functions that use non-FFI-safe u128 within their signature
    let blocklist_functions = vec![
        String::from_str("Hacl_Blake2b_32_blake2b_update_multi"),
        String::from_str("Hacl_Blake2b_32_blake2b_update_last"),
        String::from_str("Hacl_Hash_SHA2_update_last_384"),
        String::from_str("Hacl_Hash_SHA2_update_last_512"),
        String::from_str("Hacl_Blake2b_256_blake2b_update_multi"),
        String::from_str("Hacl_Blake2b_256_blake2b_update_last"),
    ];
    let clang_args = vec![
        include_flag(DIST_C89),
        include_flag(DIST_KARAMEL_INCLUDE),
        include_flag(DIST_KARAMEL_MINIMAL_INCLUDE),
    ];
    let r = BindingsSettings {
        allowlist,
        blocklist_functions,
        clang_args,
        header: String::from_str("src/bindgen/bindgen.h"),
        output: String::from_str("src/bindgen/bindgen.rs"),
    };
    assert(texts(r.allowlist@) =~= seq!["EverCrypt_.*"@, "Spec_.*"@, "Hacl_.*"@]);
    assert(texts(r.blocklist_functions@) =~= seq![
        "Hacl_Blake2b_32_blake2b_update_multi"@,
        "Hacl_Blake2b_32_blake2b_update_last"@,
        "Hacl_Hash_SHA2_update_last_384"@,
        "Hacl_Hash_SHA2_update_last_512"@,
        "Hacl_Blake2b_256_blake2b_update_multi"@,
        "Hacl_Blake2b_256_blake2b_update_last"@,
    ]);
    assert(texts(r.clang_args@) =~= seq![
        include_arg(DIST_C89@),
        include_arg(DIST_KARAMEL_INCLUDE@),
        include_arg(DIST_KARAMEL_MINIMAL_INCLUDE@),
    ]);
    r
}

} // verus!
