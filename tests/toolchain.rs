use cmake_toolchain::prefix::known_prefixes_of;
use cmake_toolchain::{CMakeToolchain, Environment};

const LINUX: &str = "x86_64-unknown-linux-gnu";

fn empty_env() -> Environment {
    Environment::new()
}

fn archiver_for(host: &str, target: &str, env: &Environment) -> String {
    CMakeToolchain::from_parts(target, host, "cc".to_string(), "c++".to_string(), env)
        .get_ar()
        .to_string()
}

#[test]
fn test_cmake_toolchain_for_host() {
    let meta = rustc_version::version_meta().unwrap();
    let host = meta.host;
    let toolchain = CMakeToolchain::new(&host, &host, &Environment::new());
    println!("{:#?}", toolchain);
}

#[test]
fn android_archiver_renames_armv7() {
    let env = empty_env();
    assert_eq!(archiver_for(LINUX, "armv7-linux-androideabi", &env), "arm-linux-androideabi-ar");
    assert_eq!(archiver_for(LINUX, "aarch64-linux-android", &env), "aarch64-linux-android-ar");
    assert_eq!(archiver_for(LINUX, "i686-linux-android", &env), "i686-linux-android-ar");
}

#[test]
fn android_archiver_ignores_cross_compile_and_path() {
    let mut env = empty_env();
    env.set_var("CROSS_COMPILE", "arm-linux-gnueabi-");
    env.add_path_dir(vec!["arm-linux-gnueabi-gcc".to_string()]);
    env.add_runnable("arm-linux-gnueabi-ar");
    assert_eq!(archiver_for(LINUX, "armv7-linux-androideabi", &env), "arm-linux-androideabi-ar");
}

#[test]
fn android_archiver_yields_to_ar_variable() {
    let mut env = empty_env();
    env.set_var("AR", "/opt/ndk/ar");
    assert_eq!(archiver_for(LINUX, "armv7-linux-androideabi", &env), "/opt/ndk/ar");
}

#[test]
fn msvc_archiver_is_lib_exe() {
    let env = empty_env();
    assert_eq!(archiver_for(LINUX, "x86_64-pc-windows-msvc", &env), "lib.exe");
    assert_eq!(archiver_for("x86_64-pc-windows-msvc", "x86_64-pc-windows-msvc", &env), "lib.exe");
    assert_eq!(archiver_for(LINUX, "aarch64-pc-windows-msvc", &env), "lib.exe");
}

#[test]
fn emscripten_archiver_is_emar() {
    let env = empty_env();
    assert_eq!(archiver_for(LINUX, "wasm32-unknown-emscripten", &env), "emar");
    assert_eq!(archiver_for(LINUX, "asmjs-unknown-emscripten", &env), "emar");
}

#[test]
fn illumos_archiver_is_gar() {
    let env = empty_env();
    assert_eq!(archiver_for(LINUX, "x86_64-unknown-illumos", &env), "gar");
    assert_eq!(archiver_for("x86_64-unknown-illumos", "x86_64-unknown-illumos", &env), "gar");
}

#[test]
fn target_ar_variable_overrides_every_rule() {
    for target in [
        "armv7-linux-androideabi",
        "x86_64-pc-windows-msvc",
        "wasm32-unknown-emscripten",
        "x86_64-unknown-illumos",
        "aarch64-unknown-linux-gnu",
        LINUX,
    ] {
        let mut env = empty_env();
        env.set_var(&format!("AR_{}", target), "/custom/ar");
        assert_eq!(archiver_for(LINUX, target, &env), "/custom/ar");
    }
}

#[test]
fn cross_compile_overrides_prefix_table() {
    let mut env = empty_env();
    env.set_var("CROSS_COMPILE", "arm-linux-gnueabi-");
    let tc = CMakeToolchain::from_parts(LINUX, LINUX, "cc".to_string(), "c++".to_string(), &env);
    for target in ["x86_64-unknown-netbsd", "aarch64-unknown-linux-gnu", "no-such-target", ""] {
        assert_eq!(tc.prefix_for_target(&env, target), Some("arm-linux-gnueabi".to_string()));
    }
}

#[test]
fn cross_compile_trims_every_trailing_dash() {
    let mut env = empty_env();
    env.set_var("CROSS_COMPILE", "mips-linux--");
    let tc = CMakeToolchain::from_parts(LINUX, LINUX, "cc".to_string(), "c++".to_string(), &env);
    assert_eq!(tc.prefix_for_target(&env, "x86_64-unknown-netbsd"), Some("mips-linux".to_string()));
}

#[test]
fn native_build_uses_plain_ar() {
    let mut env = empty_env();
    env.add_path_dir(vec!["x86_64-linux-gnu-gcc".to_string()]);
    env.add_runnable("x86_64-linux-gnu-ar");
    assert_eq!(archiver_for(LINUX, LINUX, &env), "ar");
    assert_eq!(CMakeToolchain::archiver_probe(LINUX, LINUX, &env), None);
}

#[test]
fn working_prefix_falls_back_to_first_candidate() {
    let mut env = empty_env();
    env.add_path_dir(vec!["gcc".to_string(), "c-gcc".to_string()]);
    env.add_path_dir(vec![]);
    assert_eq!(env.working_prefix(&vec!["a", "b"]), Some("a".to_string()));
    assert_eq!(empty_env().working_prefix(&vec!["a", "b"]), Some("a".to_string()));
    assert_eq!(env.working_prefix(&vec![]), None);
}

#[test]
fn working_prefix_prefers_earliest_directory() {
    let mut env = empty_env();
    env.add_path_dir(vec!["ls".to_string()]);
    env.add_path_dir(vec!["b-gcc".to_string()]);
    env.add_path_dir(vec!["a-gcc".to_string()]);
    assert_eq!(env.working_prefix(&vec!["a", "b"]), Some("b".to_string()));
}

#[test]
fn working_prefix_prefers_earlier_candidate_in_one_directory() {
    let mut env = empty_env();
    env.add_path_dir(vec!["b-gcc".to_string(), "a-gcc".to_string()]);
    assert_eq!(env.working_prefix(&vec!["a", "b"]), Some("a".to_string()));
}

#[test]
fn working_prefix_uses_executable_suffix() {
    let mut env = empty_env();
    env.set_exe_suffix(".exe");
    env.add_path_dir(vec!["a-gcc".to_string(), "b-gcc.exe".to_string()]);
    assert_eq!(env.working_prefix(&vec!["a", "b"]), Some("b".to_string()));
}

#[test]
fn resolve_var_priority() {
    let mut env = empty_env();
    env.set_var("AR_x86_64-unknown-linux-gnu", "X");
    env.set_var("AR_x86_64_unknown_linux_gnu", "Y");
    env.set_var("AR", "Z");
    let tc = CMakeToolchain::from_parts(LINUX, LINUX, "cc".to_string(), "c++".to_string(), &env);
    assert_eq!(tc.get_var(&env, "AR"), Some("X".to_string()));
}

#[test]
fn resolve_var_falls_through_in_order() {
    let mut env = empty_env();
    env.set_var("AR", "Z");
    let native = CMakeToolchain::from_parts(LINUX, LINUX, "cc".to_string(), "c++".to_string(), &env);
    let cross = CMakeToolchain::from_parts(
        "aarch64-unknown-linux-gnu",
        LINUX,
        "cc".to_string(),
        "c++".to_string(),
        &env,
    );
    assert_eq!(native.get_var(&env, "AR"), Some("Z".to_string()));
    env.set_var("TARGET_AR", "T");
    assert_eq!(native.get_var(&env, "AR"), Some("Z".to_string()));
    assert_eq!(cross.get_var(&env, "AR"), Some("T".to_string()));
    env.set_var("HOST_AR", "H");
    assert_eq!(native.get_var(&env, "AR"), Some("H".to_string()));
    env.set_var("AR_x86_64_unknown_linux_gnu", "Y");
    assert_eq!(native.get_var(&env, "AR"), Some("Y".to_string()));
    assert_eq!(cross.get_var(&env, "AR"), Some("T".to_string()));
    env.set_var("AR_aarch64_unknown_linux_gnu", "U");
    assert_eq!(cross.get_var(&env, "AR"), Some("U".to_string()));
    assert_eq!(native.get_var(&env, "RANLIB"), None);
}

#[test]
fn later_setting_of_a_variable_wins() {
    let mut env = empty_env();
    assert_eq!(env.var("AR"), None);
    env.set_var("AR", "first");
    env.set_var("AR", "second");
    assert_eq!(env.var("AR"), Some("second".to_string()));
}

#[test]
fn construction_is_deterministic() {
    let mut env = empty_env();
    env.set_var("CROSS_COMPILE", "aarch64-linux-gnu-");
    env.add_runnable("aarch64-linux-gnu-ar");
    let target = "aarch64-unknown-linux-gnu";
    let a = CMakeToolchain::from_parts(target, LINUX, "gcc".to_string(), "g++".to_string(), &env);
    let b = CMakeToolchain::from_parts(target, LINUX, "gcc".to_string(), "g++".to_string(), &env);
    assert_eq!(a.get_ar(), b.get_ar());
    assert_eq!(a.get_cc(), b.get_cc());
    assert_eq!(a.get_cxx(), b.get_cxx());
    assert_eq!(a.get_ar(), "aarch64-linux-gnu-ar");
}

#[test]
fn cross_archiver_used_only_when_it_runs() {
    let target = "aarch64-unknown-linux-gnu";
    let mut env = empty_env();
    let probe = CMakeToolchain::archiver_probe(LINUX, target, &env);
    assert_eq!(probe, Some("aarch64-linux-gnu-ar".to_string()));
    assert_eq!(archiver_for(LINUX, target, &env), "ar");
    env.add_runnable("aarch64-linux-gnu-ar");
    assert_eq!(archiver_for(LINUX, target, &env), "aarch64-linux-gnu-ar");
}

#[test]
fn cross_archiver_for_unknown_target_is_plain_ar() {
    let env = empty_env();
    assert_eq!(CMakeToolchain::archiver_probe(LINUX, "x86_64-unknown-redox", &env), None);
    assert_eq!(archiver_for(LINUX, "x86_64-unknown-redox", &env), "ar");
}

#[test]
fn no_probe_when_ar_variable_set_or_target_special() {
    let mut env = empty_env();
    assert_eq!(CMakeToolchain::archiver_probe(LINUX, "x86_64-pc-windows-msvc", &env), None);
    env.set_var("TARGET_AR", "llvm-ar");
    assert_eq!(CMakeToolchain::archiver_probe(LINUX, "aarch64-unknown-linux-gnu", &env), None);
    assert_eq!(archiver_for(LINUX, "aarch64-unknown-linux-gnu", &env), "llvm-ar");
}

#[test]
fn multi_prefix_target_searches_path() {
    let mut env = empty_env();
    let tc = CMakeToolchain::from_parts(LINUX, LINUX, "cc".to_string(), "c++".to_string(), &env);
    assert_eq!(tc.prefix_for_target(&env, "i686-unknown-linux-gnu"), Some("i686-linux-gnu".to_string()));
    env.add_path_dir(vec!["x86_64-linux-gnu-gcc".to_string()]);
    assert_eq!(tc.prefix_for_target(&env, "i686-unknown-linux-gnu"), Some("x86_64-linux-gnu".to_string()));
    assert_eq!(
        tc.prefix_for_target(&env, "riscv64gc-unknown-none-elf"),
        Some("riscv64-unknown-elf".to_string())
    );
    env.add_path_dir(vec!["riscv-none-embed-gcc".to_string()]);
    assert_eq!(
        tc.prefix_for_target(&env, "riscv32imac-unknown-none-elf"),
        Some("riscv-none-embed".to_string())
    );
}

#[test]
fn prefix_table_entries() {
    let env = empty_env();
    let tc = CMakeToolchain::from_parts(LINUX, LINUX, "cc".to_string(), "c++".to_string(), &env);
    let cases = [
        ("aarch64-pc-windows-gnu", "aarch64-w64-mingw32"),
        ("aarch64-unknown-netbsd", "aarch64--netbsd"),
        ("armv7-unknown-linux-gnueabi", "arm-linux-gnueabi"),
        ("thumbv7neon-unknown-linux-musleabihf", "arm-linux-musleabihf"),
        ("i586-unknown-linux-musl", "musl"),
        ("i686-unknown-netbsd", "i486--netbsdelf"),
        ("powerpc64-unknown-linux-gnu", "powerpc-linux-gnu"),
        ("sparcv9-sun-solaris", "sparcv9-sun-solaris"),
        ("thumbv8m.main-none-eabihf", "arm-none-eabi"),
        ("x86_64-pc-windows-gnu", "x86_64-w64-mingw32"),
        ("x86_64-unknown-linux-gnu", "x86_64-linux-gnu"),
    ];
    for (target, prefix) in cases {
        assert_eq!(tc.prefix_for_target(&env, target), Some(prefix.to_string()));
    }
    assert_eq!(tc.prefix_for_target(&env, "x86_64-apple-darwin"), None);
    assert_eq!(known_prefixes_of("riscv32i-unknown-none-elf"), vec![
        "riscv32-unknown-elf",
        "riscv64-unknown-elf",
        "riscv-none-embed"
    ]);
    assert!(known_prefixes_of("x86_64-unknown-linux-gnux").is_empty());
}

#[test]
fn accessors_chain_and_read_back() {
    let env = empty_env();
    let mut tc = CMakeToolchain::from_parts(LINUX, LINUX, "cc".to_string(), "c++".to_string(), &env);
    assert_eq!(tc.get_sysroot(), None);
    assert_eq!(tc.get_ranlib(), "ranlib");
    assert_eq!(tc.get_host(), LINUX);
    assert_eq!(tc.get_target(), LINUX);
    tc.sysroot("/sysroot".to_string())
        .cc("/usr/bin/clang".to_string())
        .cxx("/usr/bin/clang++".to_string())
        .ar("llvm-ar".to_string())
        .ranlib("llvm-ranlib".to_string());
    assert_eq!(tc.get_sysroot(), Some("/sysroot"));
    assert_eq!(tc.get_cc(), "/usr/bin/clang");
    assert_eq!(tc.get_cxx(), "/usr/bin/clang++");
    assert_eq!(tc.get_ar(), "llvm-ar");
    assert_eq!(tc.get_ranlib(), "llvm-ranlib");
}
