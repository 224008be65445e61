//! The toolchain for one target: compilers, archiver, ranlib and sysroot.
use vstd::prelude::*;

use crate::compiler::{compiler_for, ToolchainError};
use crate::environment::{EnvModel, Environment};
use crate::prefix::{known_prefixes, known_prefixes_of, working_prefix};
use crate::text::{contains, same_text, contains_text, replace_all, replace_text, trim_end, trim_end_text};

verus! {

/// `"HOST"` for a native build, `"TARGET"` for a cross build.
pub open spec fn build_kind(host: Seq<char>, target: Seq<char>) -> Seq<char> {
    if host == target {
        "HOST"@
    } else {
        "TARGET"@
    }
}

/// The first of `a`, `b` that is set.
pub open spec fn either(a: Option<Seq<char>>, b: Option<Seq<char>>) -> Option<Seq<char>> {
    if a is Some {
        a
    } else {
        b
    }
}

/// The value of the variable for tool `base`, looked up in this order:
/// `{base}_{target}`, `{base}_{target with '-' as '_'}`, `HOST_{base}` or
/// `TARGET_{base}`, and `{base}`.
pub open spec fn resolve_var(
    env: EnvModel,
    host: Seq<char>,
    target: Seq<char>,
    base: Seq<char>,
) -> Option<Seq<char>> {
    either(
        env.var(base + "_"@ + target),
        either(
            env.var(base + "_"@ + replace_all(target, "-"@, "_"@)),
            either(env.var(build_kind(host, target) + "_"@ + base), env.var(base)),
        ),
    )
}

/// The toolchain prefix for `target`: `CROSS_COMPILE` without its trailing
/// dashes when set, else the prefix that the table and a search of `PATH`
/// give.
pub open spec fn target_prefix(env: EnvModel, target: Seq<char>) -> Option<Seq<char>> {
    match env.var("CROSS_COMPILE"@) {
        Some(v) => Some(trim_end(v, '-')),
        None => working_prefix(env.path, known_prefixes(target), env.exe_suffix),
    }
}

/// The archiver fixed by the kind of target, whatever the machine holds.
pub open spec fn special_archiver(target: Seq<char>) -> Option<Seq<char>> {
    if contains(target, "android"@) {
        Some(replace_all(target, "armv7"@, "arm"@) + "-ar"@)
    } else if contains(target, "emscripten"@) {
        Some("emar"@)
    } else if contains(target, "msvc"@) {
        Some("lib.exe"@)
    } else if contains(target, "illumos"@) {
        Some("gar"@)
    } else {
        None
    }
}

/// The archiver named after the target's toolchain prefix, in a cross build.
pub open spec fn cross_archiver(env: EnvModel, host: Seq<char>, target: Seq<char>) -> Option<
    Seq<char>,
> {
    if host != target {
        match target_prefix(env, target) {
            Some(p) => Some(p + "-ar"@),
            None => None,
        }
    } else {
        None
    }
}

/// The prefixed archiver that is worth trying to run: only in a cross build
/// with no `AR` variable set and no archiver fixed by the kind of target.
pub open spec fn archiver_probe(env: EnvModel, host: Seq<char>, target: Seq<char>) -> Option<
    Seq<char>,
> {
    if resolve_var(env, host, target, "AR"@) is None && special_archiver(target) is None {
        cross_archiver(env, host, target)
    } else {
        None
    }
}

/// The archiver for `target` built on `host`.
pub open spec fn archiver(env: EnvModel, host: Seq<char>, target: Seq<char>) -> Seq<char> {
    match resolve_var(env, host, target, "AR"@) {
        Some(v) => v,
        None => match special_archiver(target) {
            Some(a) => a,
            None => match archiver_probe(env, host, target) {
                Some(c) => if env.runnable.contains(c) {
                    c
                } else {
                    "ar"@
                },
                None => "ar"@,
            },
        },
    }
}

/// The mathematical model of a [`CMakeToolchain`].
pub ghost struct ToolchainModel {
    pub host: Seq<char>,
    pub target: Seq<char>,
    pub sysroot: Option<Seq<char>>,
    pub cc: Seq<char>,
    pub cxx: Seq<char>,
    pub ar: Seq<char>,
    pub ranlib: Seq<char>,
}

/// The toolchain settings handed to CMake for one target.
#[derive(Debug, Clone)]
pub struct CMakeToolchain {
    /// Host target
    host: String,
    /// Build target
    target: String,
    /// `CMAKE_SYSROOT`
    sysroot: Option<String>,
    /// `CMAKE_C_COMPILER`
    cc: String,
    /// `CMAKE_CXX_COMPILER`
    cxx: String,
    /// `CMAKE_AR`
    ar: String,
    /// `CMAKE_RANLIB`
    ranlib: String,
}

impl View for CMakeToolchain {
    type V = ToolchainModel;

    closed spec fn view(&self) -> ToolchainModel {
        ToolchainModel {
            host: self.host@,
            target: self.target@,
            sysroot: match self.sysroot {
                Some(s) => Some(s@),
                None => None,
            },
            cc: self.cc@,
            cxx: self.cxx@,
            ar: self.ar@,
            ranlib: self.ranlib@,
        }
    }
}

/// A toolchain as it stands right after construction.
pub open spec fn fresh(
    t: ToolchainModel,
    env: EnvModel,
    host: Seq<char>,
    target: Seq<char>,
) -> bool {
    &&& t.host == host
    &&& t.target == target
    &&& t.sysroot is None
    &&& t.ar == archiver(env, host, target)
    &&& t.ranlib == "ranlib"@
}

/// The archiver fixed by the kind of `target`.
fn special_archiver_of(target: &str) -> (r: Option<String>)
    ensures
        r.deep_view() == special_archiver(target@),
{
    if contains_text(target, "android") {
        proof {
            reveal_strlit("armv7");
        }
        Some(replace_text(target, "armv7", "arm").concat("-ar"))
    } else if contains_text(target, "emscripten") {
        Some(String::from_str("emar"))
    } else if contains_text(target, "msvc") {
        // The registry may know where `lib.exe` lives, but the name is the
        // same either way.
        Some(String::from_str("lib.exe"))
    } else if contains_text(target, "illumos") {
        // The native `ar` of illumos takes non-standard flags; the GNU variant
        // that ships with the system matches other Unix systems.
        Some(String::from_str("gar"))
    } else {
        None
    }
}

/// The value of the variable for tool `base` (see [`resolve_var`]).
fn resolve_var_in(env: &Environment, host: &str, target: &str, base: &str) -> (r: Option<String>)
    ensures
        r.deep_view() == resolve_var(env@, host@, target@, base@),
{
    let kind = if same_text(host, target) {
        "HOST"
    } else {
        "TARGET"
    };
    proof {
        reveal_strlit("-");
    }
    let target_u = replace_text(target, "-", "_");
    let specific = String::from_str(base).concat("_").concat(target);
    if let Some(v) = env.var(specific.as_str()) {
        return Some(v);
    }
    let underscored = String::from_str(base).concat("_").concat(target_u.as_str());
    if let Some(v) = env.var(underscored.as_str()) {
        return Some(v);
    }
    let general = String::from_str(kind).concat("_").concat(base);
    if let Some(v) = env.var(general.as_str()) {
        return Some(v);
    }
    env.var(base)
}

/// The toolchain prefix for `target` (see [`target_prefix`]).
fn prefix_in(env: &Environment, target: &str) -> (r: Option<String>)
    ensures
        r.deep_view() == target_prefix(env@, target@),
{
    // CROSS_COMPILE is of the form "arm-linux-gnueabi-".
    match env.var("CROSS_COMPILE") {
        Some(v) => Some(trim_end_text(v.as_str(), '-')),
        None => env.working_prefix(&known_prefixes_of(target)),
    }
}

/// The archiver named after the target's toolchain prefix, in a cross build.
fn cross_archiver_of(env: &Environment, host: &str, target: &str) -> (r: Option<String>)
    ensures
        r.deep_view() == cross_archiver(env@, host@, target@),
{
    if same_text(host, target) {
        return None;
    }
    match prefix_in(env, target) {
        Some(p) => Some(p.concat("-ar")),
        None => None,
    }
}

impl CMakeToolchain {
    /// The toolchain for `target` built on `host` from the compilers `cc` and
    /// `cxx`, with the archiver found in `env`, `ranlib` as ranlib and no
    /// sysroot.
    pub fn from_parts(target: &str, host: &str, cc: String, cxx: String, env: &Environment) -> (r:
        Self)
        ensures
            fresh(r@, env@, host@, target@),
            r@.cc == cc@,
            r@.cxx == cxx@,
    {
        let mut toolchain = CMakeToolchain {
            host: String::from_str(host),
            target: String::from_str(target),
            sysroot: None,
            cc,
            cxx,
            ar: String::from_str("ar"),
            ranlib: String::from_str("ranlib"),
        };
        let ar = toolchain.find_ar(env);
        toolchain.ar = ar;
        toolchain
    }

    /// The toolchain for `target` built on `host`: the C and C++ compilers are
    /// those that `cc` selects, the archiver is found in `env`.
    pub fn new(target: &str, host: &str, env: &Environment) -> (r: Result<Self, ToolchainError>)
        ensures
            r matches Ok(t) ==> fresh(t@, env@, host@, target@),
    {
        let cc = match compiler_for(host, target, false) {
            Ok(path) => path,
            Err(e) => return Err(e),
        };
        let cxx = match compiler_for(host, target, true) {
            Ok(path) => path,
            Err(e) => return Err(e),
        };
        Ok(Self::from_parts(target, host, cc, cxx, env))
    }

    /// Set CMake sysroot
    pub fn sysroot(&mut self, sysroot: String) -> (r: &mut Self)
        ensures
            (*r)@ == (ToolchainModel { sysroot: Some(sysroot@), ..old(self)@ }),
            *final(self) == *final(r),
    {
        self.sysroot = Some(sysroot);
        self
    }

    /// Get CMake sysroot
    pub fn get_sysroot(&self) -> (r: Option<&str>)
        ensures
            self@.sysroot == (match r {
                Some(s) => Some(s@),
                None => None,
            }),
    {
        match &self.sysroot {
            Some(s) => Some(s.as_str()),
            None => None,
        }
    }

    /// Set C compiler path
    pub fn cc(&mut self, cc: String) -> (r: &mut Self)
        ensures
            (*r)@ == (ToolchainModel { cc: cc@, ..old(self)@ }),
            *final(self) == *final(r),
    {
        self.cc = cc;
        self
    }

    /// Get C compiler path
    pub fn get_cc(&self) -> (r: &str)
        ensures
            r@ == self@.cc,
    {
        self.cc.as_str()
    }

    /// Set C++ compiler path
    pub fn cxx(&mut self, cxx: String) -> (r: &mut Self)
        ensures
            (*r)@ == (ToolchainModel { cxx: cxx@, ..old(self)@ }),
            *final(self) == *final(r),
    {
        self.cxx = cxx;
        self
    }

    /// Get C++ compiler path
    pub fn get_cxx(&self) -> (r: &str)
        ensures
            r@ == self@.cxx,
    {
        self.cxx.as_str()
    }

    /// Set archiver path
    pub fn ar(&mut self, ar: String) -> (r: &mut Self)
        ensures
            (*r)@ == (ToolchainModel { ar: ar@, ..old(self)@ }),
            *final(self) == *final(r),
    {
        self.ar = ar;
        self
    }

    /// Get archiver path
    pub fn get_ar(&self) -> (r: &str)
        ensures
            r@ == self@.ar,
    {
        self.ar.as_str()
    }

    /// Set ranlib path
    pub fn ranlib(&mut self, ranlib: String) -> (r: &mut Self)
        ensures
            (*r)@ == (ToolchainModel { ranlib: ranlib@, ..old(self)@ }),
            *final(self) == *final(r),
    {
        self.ranlib = ranlib;
        self
    }

    /// Get ranlib path
    pub fn get_ranlib(&self) -> (r: &str)
        ensures
            r@ == self@.ranlib,
    {
        self.ranlib.as_str()
    }

    /// Host target
    pub fn get_host(&self) -> (r: &str)
        ensures
            r@ == self@.host,
    {
        self.host.as_str()
    }

    /// Build target
    pub fn get_target(&self) -> (r: &str)
        ensures
            r@ == self@.target,
    {
        self.target.as_str()
    }

    /// The prefixed archiver that should be tried before the toolchain for
    /// `target` built on `host` is made (see [`archiver_probe`]); record it
    /// with [`Environment::add_runnable`] when it starts.
    pub fn archiver_probe(host: &str, target: &str, env: &Environment) -> (r: Option<String>)
        ensures
            r.deep_view() == archiver_probe(env@, host@, target@),
    {
        if resolve_var_in(env, host, target, "AR").is_some() {
            return None;
        }
        if special_archiver_of(target).is_some() {
            return None;
        }
        cross_archiver_of(env, host, target)
    }

    /// The archiver for this toolchain (see [`archiver`]).
    pub fn find_ar(&self, env: &Environment) -> (r: String)
        ensures
            r@ == archiver(env@, self@.host, self@.target),
    {
        if let Some(p) = self.get_var(env, "AR") {
            return p;
        }
        if let Some(a) = special_archiver_of(self.target.as_str()) {
            return a;
        }
        match cross_archiver_of(env, self.host.as_str(), self.target.as_str()) {
            Some(c) => {
                if env.can_run(c.as_str()) {
                    c
                } else {
                    String::from_str("ar")
                }
            },
            None => String::from_str("ar"),
        }
    }

    /// The value of the variable for tool `var_base` (see [`resolve_var`]).
    pub fn get_var(&self, env: &Environment, var_base: &str) -> (r: Option<String>)
        ensures
            r.deep_view() == resolve_var(env@, self@.host, self@.target, var_base@),
    {
        resolve_var_in(env, self.host.as_str(), self.target.as_str(), var_base)
    }

    /// The toolchain prefix for `target` (see [`target_prefix`]).
    pub fn prefix_for_target(&self, env: &Environment, target: &str) -> (r: Option<String>)
        ensures
            r.deep_view() == target_prefix(env@, target@),
    {
        prefix_in(env, target)
    }
}

/// An `AR` variable, when set, names the archiver for an Android target;
/// otherwise the archiver is the target with `armv7` read as `arm`, followed
/// by `-ar`.
pub proof fn lemma_android_archiver(env: EnvModel, host: Seq<char>, target: Seq<char>)
    requires
        contains(target, "android"@),
    ensures
        resolve_var(env, host, target, "AR"@) matches Some(v) ==> archiver(env, host, target) == v,
        resolve_var(env, host, target, "AR"@) is None ==> archiver(env, host, target) == replace_all(
            target,
            "armv7"@,
            "arm"@,
        ) + "-ar"@,
{
}

/// With no `AR` variable set, an MSVC target that is neither an Android nor
/// an Emscripten target uses `lib.exe`.
pub proof fn lemma_msvc_archiver(env: EnvModel, host: Seq<char>, target: Seq<char>)
    requires
        contains(target, "msvc"@),
        !contains(target, "android"@),
        !contains(target, "emscripten"@),
        resolve_var(env, host, target, "AR"@) is None,
    ensures
        archiver(env, host, target) == "lib.exe"@,
{
}

/// With no `AR` variable set, an Emscripten target that is not an Android
/// target uses `emar`.
pub proof fn lemma_emscripten_archiver(env: EnvModel, host: Seq<char>, target: Seq<char>)
    requires
        contains(target, "emscripten"@),
        !contains(target, "android"@),
        resolve_var(env, host, target, "AR"@) is None,
    ensures
        archiver(env, host, target) == "emar"@,
{
}

/// With no `AR` variable set, an illumos target that is none of Android,
/// Emscripten and MSVC uses `gar`.
pub proof fn lemma_illumos_archiver(env: EnvModel, host: Seq<char>, target: Seq<char>)
    requires
        contains(target, "illumos"@),
        !contains(target, "android"@),
        !contains(target, "emscripten"@),
        !contains(target, "msvc"@),
        resolve_var(env, host, target, "AR"@) is None,
    ensures
        archiver(env, host, target) == "gar"@,
{
}

/// `AR_{target}`, when set, is the archiver, whatever the kind of target.
pub proof fn lemma_target_ar_overrides(env: EnvModel, host: Seq<char>, target: Seq<char>)
    requires
        env.var("AR"@ + "_"@ + target) is Some,
    ensures
        archiver(env, host, target) == env.var("AR"@ + "_"@ + target)->0,
{
}

/// `CROSS_COMPILE`, when set, gives the prefix of every target, without its
/// trailing dashes.
pub proof fn lemma_cross_compile_prefix(env: EnvModel, target: Seq<char>)
    requires
        env.var("CROSS_COMPILE"@) is Some,
    ensures
        target_prefix(env, target) == Some(trim_end(env.var("CROSS_COMPILE"@)->0, '-')),
{
}

/// A native build with no `AR` variable set and no archiver fixed by the
/// kind of target uses plain `ar`.
pub proof fn lemma_native_archiver(env: EnvModel, host: Seq<char>, target: Seq<char>)
    requires
        host == target,
        resolve_var(env, host, target, "AR"@) is None,
        special_archiver(target) is None,
    ensures
        archiver(env, host, target) == "ar"@,
{
}

/// The variable for a tool named with the exact target wins over all the
/// others.
pub proof fn lemma_exact_target_var_first(
    env: EnvModel,
    host: Seq<char>,
    target: Seq<char>,
    base: Seq<char>,
)
    requires
        env.var(base + "_"@ + target) is Some,
    ensures
        resolve_var(env, host, target, base) == env.var(base + "_"@ + target),
{
}

/// Two toolchains made for the same target and host from the same
/// environment have the same archiver; made from the same compilers too, they
/// are equal.
pub proof fn lemma_construction_deterministic(
    a: ToolchainModel,
    b: ToolchainModel,
    env: EnvModel,
    host: Seq<char>,
    target: Seq<char>,
)
    requires
        fresh(a, env, host, target),
        fresh(b, env, host, target),
    ensures
        a.ar == b.ar,
        a.cc == b.cc && a.cxx == b.cxx ==> a == b,
{
}

} // verus!
