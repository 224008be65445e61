//! Compiler detection, done by the `cc` crate.
use vstd::prelude::*;

verus! {

#[verifier::external_type_specification]
#[verifier::external_body]
pub struct ExCcError(cc::Error);

/// Why a toolchain could not be set up.
#[derive(Debug)]
pub enum ToolchainError {
    /// `cc` found no C compiler (`cpp == false`) or no C++ compiler
    /// (`cpp == true`) for the target; `message` is its explanation.
    CompilerDetection { cpp: bool, message: String },
}

/// Relies on `cc::Build::try_get_compiler`, with the build configured by
/// `cc::Build::new`, `host`, `target`, `opt_level(0)`, `cargo_metadata(false)`,
/// `cpp`, `debug(false)` and `warnings(false)`, and on `cc::Tool::path`: the
/// path of the compiler that `cc` selects. The choice depends on environment
/// variables and on the programs installed, so nothing is stated of the path.
#[verifier::external_body]
pub(crate) fn detect_compiler(host: &str, target: &str, cpp: bool) -> (r: Result<String, cc::Error>) {
    let mut cfg = cc::Build::new();
    cfg.host(host).target(target).opt_level(0).cargo_metadata(false);
    cfg.cpp(cpp).debug(false).warnings(false);
    match cfg.try_get_compiler() {
        Ok(tool) => Ok(tool.path().to_string_lossy().into_owned()),
        Err(e) => Err(e),
    }
}

/// The C (`cpp == false`) or C++ compiler for `target` built on `host`, or
/// the reason why `cc` found none.
pub(crate) fn compiler_for(host: &str, target: &str, cpp: bool) -> (r: Result<String, ToolchainError>)
    ensures
        r matches Err(ToolchainError::CompilerDetection { cpp: c, .. }) ==> c == cpp,
{
    match detect_compiler(host, target, cpp) {
        Ok(path) => Ok(path),
        Err(e) => Err(ToolchainError::CompilerDetection { cpp, message: e.to_string() }),
    }
}

} // verus!
