//! The GNU toolchain prefixes known for target triples, and the search along
//! `PATH` that picks one of several candidate prefixes.
use vstd::prelude::*;

use crate::environment::{holds_text, texts, Environment};
use crate::text::same_text;

verus! {

/// The view of a list of string slices.
pub open spec fn strs(v: Seq<&str>) -> Seq<Seq<char>> {
    v.map_values(|s: &str| s@)
}

/// The toolchain prefixes known for target `t`, most likely first; empty when
/// `t` is not known. Some targets admit several naming schemes, and the one
/// in use is told by which compiler is installed.
pub open spec fn known_prefixes(t: Seq<char>) -> Seq<Seq<char>> {
    if t == "aarch64-pc-windows-gnu"@
        || t == "aarch64-uwp-windows-gnu"@ {
        seq!["aarch64-w64-mingw32"@]
    } else if t == "aarch64-unknown-linux-gnu"@ {
        seq!["aarch64-linux-gnu"@]
    } else if t == "aarch64-unknown-linux-musl"@ {
        seq!["aarch64-linux-musl"@]
    } else if t == "aarch64-unknown-netbsd"@ {
        seq!["aarch64--netbsd"@]
    } else if t == "arm-unknown-linux-gnueabi"@
        || t == "armv4t-unknown-linux-gnueabi"@
        || t == "armv5te-unknown-linux-gnueabi"@
        || t == "armv5te-unknown-linux-musleabi"@
        || t == "armv7-unknown-linux-gnueabi"@ {
        seq!["arm-linux-gnueabi"@]
    } else if t == "arm-frc-linux-gnueabi"@ {
        seq!["arm-frc-linux-gnueabi"@]
    } else if t == "arm-unknown-linux-gnueabihf"@
        || t == "armv7-unknown-linux-gnueabihf"@
        || t == "armv7neon-unknown-linux-gnueabihf"@
        || t == "thumbv7-unknown-linux-gnueabihf"@
        || t == "thumbv7neon-unknown-linux-gnueabihf"@ {
        seq!["arm-linux-gnueabihf"@]
    } else if t == "arm-unknown-linux-musleabi"@ {
        seq!["arm-linux-musleabi"@]
    } else if t == "arm-unknown-linux-musleabihf"@
        || t == "armv7-unknown-linux-musleabihf"@
        || t == "armv7neon-unknown-linux-musleabihf"@
        || t == "thumbv7-unknown-linux-musleabihf"@
        || t == "thumbv7neon-unknown-linux-musleabihf"@ {
        seq!["arm-linux-musleabihf"@]
    } else if t == "arm-unknown-netbsd-eabi"@ {
        seq!["arm--netbsdelf-eabi"@]
    } else if t == "armv6-unknown-netbsd-eabihf"@ {
        seq!["armv6--netbsdelf-eabihf"@]
    } else if t == "armv7-unknown-netbsd-eabihf"@ {
        seq!["armv7--netbsdelf-eabihf"@]
    } else if t == "hexagon-unknown-linux-musl"@ {
        seq!["hexagon-linux-musl"@]
    } else if t == "i586-unknown-linux-musl"@
        || t == "i686-unknown-linux-musl"@
        || t == "x86_64-unknown-linux-musl"@ {
        seq!["musl"@]
    } else if t == "i686-pc-windows-gnu"@
        || t == "i686-uwp-windows-gnu"@ {
        seq!["i686-w64-mingw32"@]
    } else if t == "i686-unknown-linux-gnu"@ {
        seq!["i686-linux-gnu"@, "x86_64-linux-gnu"@]
    } else if t == "i686-unknown-netbsd"@ {
        seq!["i486--netbsdelf"@]
    } else if t == "mips-unknown-linux-gnu"@ {
        seq!["mips-linux-gnu"@]
    } else if t == "mips-unknown-linux-musl"@ {
        seq!["mips-linux-musl"@]
    } else if t == "mipsel-unknown-linux-gnu"@ {
        seq!["mipsel-linux-gnu"@]
    } else if t == "mipsel-unknown-linux-musl"@ {
        seq!["mipsel-linux-musl"@]
    } else if t == "mips64-unknown-linux-gnuabi64"@ {
        seq!["mips64-linux-gnuabi64"@]
    } else if t == "mips64el-unknown-linux-gnuabi64"@ {
        seq!["mips64el-linux-gnuabi64"@]
    } else if t == "mipsisa32r6-unknown-linux-gnu"@ {
        seq!["mipsisa32r6-linux-gnu"@]
    } else if t == "mipsisa32r6el-unknown-linux-gnu"@ {
        seq!["mipsisa32r6el-linux-gnu"@]
    } else if t == "mipsisa64r6-unknown-linux-gnuabi64"@ {
        seq!["mipsisa64r6-linux-gnuabi64"@]
    } else if t == "mipsisa64r6el-unknown-linux-gnuabi64"@ {
        seq!["mipsisa64r6el-linux-gnuabi64"@]
    } else if t == "powerpc-unknown-linux-gnu"@
        || t == "powerpc64-unknown-linux-gnu"@ {
        seq!["powerpc-linux-gnu"@]
    } else if t == "powerpc-unknown-linux-gnuspe"@ {
        seq!["powerpc-linux-gnuspe"@]
    } else if t == "powerpc-unknown-netbsd"@ {
        seq!["powerpc--netbsd"@]
    } else if t == "powerpc64le-unknown-linux-gnu"@ {
        seq!["powerpc64le-linux-gnu"@]
    } else if t == "riscv32i-unknown-none-elf"@
        || t == "riscv32imac-unknown-none-elf"@
        || t == "riscv32imc-unknown-none-elf"@ {
        seq!["riscv32-unknown-elf"@, "riscv64-unknown-elf"@, "riscv-none-embed"@]
    } else if t == "riscv64gc-unknown-none-elf"@
        || t == "riscv64imac-unknown-none-elf"@ {
        seq!["riscv64-unknown-elf"@, "riscv32-unknown-elf"@, "riscv-none-embed"@]
    } else if t == "riscv64gc-unknown-linux-gnu"@ {
        seq!["riscv64-linux-gnu"@]
    } else if t == "riscv32gc-unknown-linux-gnu"@ {
        seq!["riscv32-linux-gnu"@]
    } else if t == "riscv64gc-unknown-linux-musl"@ {
        seq!["riscv64-linux-musl"@]
    } else if t == "riscv32gc-unknown-linux-musl"@ {
        seq!["riscv32-linux-musl"@]
    } else if t == "s390x-unknown-linux-gnu"@ {
        seq!["s390x-linux-gnu"@]
    } else if t == "sparc-unknown-linux-gnu"@ {
        seq!["sparc-linux-gnu"@]
    } else if t == "sparc64-unknown-linux-gnu"@ {
        seq!["sparc64-linux-gnu"@]
    } else if t == "sparc64-unknown-netbsd"@ {
        seq!["sparc64--netbsd"@]
    } else if t == "sparcv9-sun-solaris"@ {
        seq!["sparcv9-sun-solaris"@]
    } else if t == "armv7a-none-eabi"@
        || t == "armv7a-none-eabihf"@
        || t == "armebv7r-none-eabi"@
        || t == "armebv7r-none-eabihf"@
        || t == "armv7r-none-eabi"@
        || t == "armv7r-none-eabihf"@
        || t == "thumbv6m-none-eabi"@
        || t == "thumbv7em-none-eabi"@
        || t == "thumbv7em-none-eabihf"@
        || t == "thumbv7m-none-eabi"@
        || t == "thumbv8m.base-none-eabi"@
        || t == "thumbv8m.main-none-eabi"@
        || t == "thumbv8m.main-none-eabihf"@ {
        seq!["arm-none-eabi"@]
    } else if t == "x86_64-pc-windows-gnu"@
        || t == "x86_64-uwp-windows-gnu"@ {
        seq!["x86_64-w64-mingw32"@]
    } else if t == "x86_64-rumprun-netbsd"@ {
        seq!["x86_64-rumprun-netbsd"@]
    } else if t == "x86_64-unknown-linux-gnu"@ {
        seq!["x86_64-linux-gnu"@]
    } else if t == "x86_64-unknown-netbsd"@ {
        seq!["x86_64--netbsd"@]
    } else {
        seq![]
    }
}

/// The table of known prefixes for target `t`.
#[verifier::rlimit(40)]
pub fn known_prefixes_of(t: &str) -> (r: Vec<&'static str>)
    ensures
        strs(r@) == known_prefixes(t@),
{
    let r =
    if same_text(t, "aarch64-pc-windows-gnu")
            || same_text(t, "aarch64-uwp-windows-gnu") {
            vec!["aarch64-w64-mingw32"]
        } else if same_text(t, "aarch64-unknown-linux-gnu") {
            vec!["aarch64-linux-gnu"]
        } else if same_text(t, "aarch64-unknown-linux-musl") {
            vec!["aarch64-linux-musl"]
        } else if same_text(t, "aarch64-unknown-netbsd") {
            vec!["aarch64--netbsd"]
        } else if same_text(t, "arm-unknown-linux-gnueabi")
            || same_text(t, "armv4t-unknown-linux-gnueabi")
            || same_text(t, "armv5te-unknown-linux-gnueabi")
            || same_text(t, "armv5te-unknown-linux-musleabi")
            || same_text(t, "armv7-unknown-linux-gnueabi") {
            vec!["arm-linux-gnueabi"]
        } else if same_text(t, "arm-frc-linux-gnueabi") {
            vec!["arm-frc-linux-gnueabi"]
        } else if same_text(t, "arm-unknown-linux-gnueabihf")
            || same_text(t, "armv7-unknown-linux-gnueabihf")
            || same_text(t, "armv7neon-unknown-linux-gnueabihf")
            || same_text(t, "thumbv7-unknown-linux-gnueabihf")
            || same_text(t, "thumbv7neon-unknown-linux-gnueabihf") {
            vec!["arm-linux-gnueabihf"]
        } else if same_text(t, "arm-unknown-linux-musleabi") {
            vec!["arm-linux-musleabi"]
        } else if same_text(t, "arm-unknown-linux-musleabihf")
            || same_text(t, "armv7-unknown-linux-musleabihf")
            || same_text(t, "armv7neon-unknown-linux-musleabihf")
            || same_text(t, "thumbv7-unknown-linux-musleabihf")
            || same_text(t, "thumbv7neon-unknown-linux-musleabihf") {
            vec!["arm-linux-musleabihf"]
        } else if same_text(t, "arm-unknown-netbsd-eabi") {
            vec!["arm--netbsdelf-eabi"]
        } else if same_text(t, "armv6-unknown-netbsd-eabihf") {
            vec!["armv6--netbsdelf-eabihf"]
        } else if same_text(t, "armv7-unknown-netbsd-eabihf") {
            vec!["armv7--netbsdelf-eabihf"]
        } else if same_text(t, "hexagon-unknown-linux-musl") {
            vec!["hexagon-linux-musl"]
        } else if same_text(t, "i586-unknown-linux-musl")
            || same_text(t, "i686-unknown-linux-musl")
            || same_text(t, "x86_64-unknown-linux-musl") {
            vec!["musl"]
        } else if same_text(t, "i686-pc-windows-gnu")
            || same_text(t, "i686-uwp-windows-gnu") {
            vec!["i686-w64-mingw32"]
        } else if same_text(t, "i686-unknown-linux-gnu") {
            vec!["i686-linux-gnu", "x86_64-linux-gnu"]
        } else if same_text(t, "i686-unknown-netbsd") {
            vec!["i486--netbsdelf"]
        } else if same_text(t, "mips-unknown-linux-gnu") {
            vec!["mips-linux-gnu"]
        } else if same_text(t, "mips-unknown-linux-musl") {
            vec!["mips-linux-musl"]
        } else if same_text(t, "mipsel-unknown-linux-gnu") {
            vec!["mipsel-linux-gnu"]
        } else if same_text(t, "mipsel-unknown-linux-musl") {
            vec!["mipsel-linux-musl"]
        } else if same_text(t, "mips64-unknown-linux-gnuabi64") {
            vec!["mips64-linux-gnuabi64"]
        } else if same_text(t, "mips64el-unknown-linux-gnuabi64") {
            vec!["mips64el-linux-gnuabi64"]
        } else if same_text(t, "mipsisa32r6-unknown-linux-gnu") {
            vec!["mipsisa32r6-linux-gnu"]
        } else if same_text(t, "mipsisa32r6el-unknown-linux-gnu") {
            vec!["mipsisa32r6el-linux-gnu"]
        } else if same_text(t, "mipsisa64r6-unknown-linux-gnuabi64") {
            vec!["mipsisa64r6-linux-gnuabi64"]
        } else if same_text(t, "mipsisa64r6el-unknown-linux-gnuabi64") {
            vec!["mipsisa64r6el-linux-gnuabi64"]
        } else if same_text(t, "powerpc-unknown-linux-gnu")
            || same_text(t, "powerpc64-unknown-linux-gnu") {
            vec!["powerpc-linux-gnu"]
        } else if same_text(t, "powerpc-unknown-linux-gnuspe") {
            vec!["powerpc-linux-gnuspe"]
        } else if same_text(t, "powerpc-unknown-netbsd") {
            vec!["powerpc--netbsd"]
        } else if same_text(t, "powerpc64le-unknown-linux-gnu") {
            vec!["powerpc64le-linux-gnu"]
        } else if same_text(t, "riscv32i-unknown-none-elf")
            || same_text(t, "riscv32imac-unknown-none-elf")
            || same_text(t, "riscv32imc-unknown-none-elf") {
            vec!["riscv32-unknown-elf", "riscv64-unknown-elf", "riscv-none-embed"]
        } else if same_text(t, "riscv64gc-unknown-none-elf")
            || same_text(t, "riscv64imac-unknown-none-elf") {
            vec!["riscv64-unknown-elf", "riscv32-unknown-elf", "riscv-none-embed"]
        } else if same_text(t, "riscv64gc-unknown-linux-gnu") {
            vec!["riscv64-linux-gnu"]
        } else if same_text(t, "riscv32gc-unknown-linux-gnu") {
            vec!["riscv32-linux-gnu"]
        } else if same_text(t, "riscv64gc-unknown-linux-musl") {
            vec!["riscv64-linux-musl"]
        } else if same_text(t, "riscv32gc-unknown-linux-musl") {
            vec!["riscv32-linux-musl"]
        } else if same_text(t, "s390x-unknown-linux-gnu") {
            vec!["s390x-linux-gnu"]
        } else if same_text(t, "sparc-unknown-linux-gnu") {
            vec!["sparc-linux-gnu"]
        } else if same_text(t, "sparc64-unknown-linux-gnu") {
            vec!["sparc64-linux-gnu"]
        } else if same_text(t, "sparc64-unknown-netbsd") {
            vec!["sparc64--netbsd"]
        } else if same_text(t, "sparcv9-sun-solaris") {
            vec!["sparcv9-sun-solaris"]
        } else if same_text(t, "armv7a-none-eabi")
            || same_text(t, "armv7a-none-eabihf")
            || same_text(t, "armebv7r-none-eabi")
            || same_text(t, "armebv7r-none-eabihf")
            || same_text(t, "armv7r-none-eabi")
            || same_text(t, "armv7r-none-eabihf")
            || same_text(t, "thumbv6m-none-eabi")
            || same_text(t, "thumbv7em-none-eabi")
            || same_text(t, "thumbv7em-none-eabihf")
            || same_text(t, "thumbv7m-none-eabi")
            || same_text(t, "thumbv8m.base-none-eabi")
            || same_text(t, "thumbv8m.main-none-eabi")
            || same_text(t, "thumbv8m.main-none-eabihf") {
            vec!["arm-none-eabi"]
        } else if same_text(t, "x86_64-pc-windows-gnu")
            || same_text(t, "x86_64-uwp-windows-gnu") {
            vec!["x86_64-w64-mingw32"]
        } else if same_text(t, "x86_64-rumprun-netbsd") {
            vec!["x86_64-rumprun-netbsd"]
        } else if same_text(t, "x86_64-unknown-linux-gnu") {
            vec!["x86_64-linux-gnu"]
        } else if same_text(t, "x86_64-unknown-netbsd") {
            vec!["x86_64--netbsd"]
        } else {
            vec![]
        }
    ;
    assert(strs(r@) =~= known_prefixes(t@));
    r
}

/// The name of the GNU C compiler executable for `prefix`.
pub open spec fn gcc_file(prefix: Seq<char>, exe_suffix: Seq<char>) -> Seq<char> {
    prefix + "-gcc"@ + exe_suffix
}

/// The first of `prefixes` whose C compiler is among `files`.
pub open spec fn first_installed(
    files: Seq<Seq<char>>,
    prefixes: Seq<Seq<char>>,
    exe_suffix: Seq<char>,
) -> Option<Seq<char>>
    decreases prefixes.len(),
{
    if prefixes.len() == 0 {
        None
    } else if files.contains(gcc_file(prefixes[0], exe_suffix)) {
        Some(prefixes[0])
    } else {
        first_installed(files, prefixes.drop_first(), exe_suffix)
    }
}

/// The prefix chosen among `prefixes` by a search of `path`: in the first
/// directory that holds the C compiler of any candidate, the first such
/// candidate; the first candidate when no directory holds one; `None` only
/// when there is no candidate.
pub open spec fn working_prefix(
    path: Seq<Seq<Seq<char>>>,
    prefixes: Seq<Seq<char>>,
    exe_suffix: Seq<char>,
) -> Option<Seq<char>>
    decreases path.len(),
{
    if prefixes.len() == 0 {
        None
    } else if path.len() == 0 {
        Some(prefixes[0])
    } else {
        match first_installed(path[0], prefixes, exe_suffix) {
            Some(p) => Some(p),
            None => working_prefix(path.drop_first(), prefixes, exe_suffix),
        }
    }
}

/// The first of `prefixes` whose C compiler is among `files`.
fn find_installed(files: &Vec<String>, prefixes: &Vec<&str>, exe_suffix: &str) -> (r: Option<
    String,
>)
    ensures
        r.deep_view() == first_installed(texts(files@), strs(prefixes@), exe_suffix@),
{
    let mut j: usize = 0;
    assert(strs(prefixes@).subrange(0, prefixes@.len() as int) =~= strs(prefixes@));
    while j < prefixes.len()
        invariant
            j <= prefixes@.len(),
            first_installed(texts(files@), strs(prefixes@).subrange(j as int, prefixes@.len() as int), exe_suffix@)
                == first_installed(texts(files@), strs(prefixes@), exe_suffix@),
        decreases prefixes@.len() - j,
    {
        let ghost rest = strs(prefixes@).subrange(j as int, prefixes@.len() as int);
        assert(rest[0] == prefixes@[j as int]@);
        let name = String::from_str(prefixes[j]).concat("-gcc").concat(exe_suffix);
        if holds_text(files, name.as_str()) {
            return Some(String::from_str(prefixes[j]));
        }
        assert(rest.drop_first() =~= strs(prefixes@).subrange(j + 1, prefixes@.len() as int));
        j = j + 1;
    }
    None
}

impl Environment {
    /// Searches `PATH`, directory by directory, for the C compiler of one of
    /// `prefixes` (see [`working_prefix`]).
    pub fn working_prefix(&self, prefixes: &Vec<&str>) -> (r: Option<String>)
        ensures
            r.deep_view() == working_prefix(self@.path, strs(prefixes@), self@.exe_suffix),
    {
        if prefixes.len() == 0 {
            return None;
        }
        let dirs = self.path_dirs();
        let suffix = self.exe_suffix();
        let mut i: usize = 0;
        assert(self@.path.subrange(0, dirs@.len() as int) =~= self@.path);
        while i < dirs.len()
            invariant
                prefixes@.len() > 0,
                i <= dirs@.len(),
                dirs@.map_values(|d: Vec<String>| texts(d@)) == self@.path,
                suffix@ == self@.exe_suffix,
                working_prefix(self@.path.subrange(i as int, dirs@.len() as int), strs(prefixes@), suffix@)
                    == working_prefix(self@.path, strs(prefixes@), suffix@),
            decreases dirs@.len() - i,
        {
            let ghost rest = self@.path.subrange(i as int, dirs@.len() as int);
            assert(rest[0] == texts(dirs@[i as int]@));
            let found = find_installed(&dirs[i], prefixes, suffix);
            if found.is_some() {
                return found;
            }
            assert(rest.drop_first() =~= self@.path.subrange(i + 1, dirs@.len() as int));
            i = i + 1;
        }
        assert(self@.path.subrange(i as int, dirs@.len() as int).len() == 0);
        assert(strs(prefixes@)[0] == prefixes@[0]@);
        Some(String::from_str(prefixes[0]))
    }
}

/// No candidate among `prefixes` has its compiler in `files`.
pub open spec fn none_installed(
    files: Seq<Seq<char>>,
    prefixes: Seq<Seq<char>>,
    exe_suffix: Seq<char>,
) -> bool {
    forall|j: int| 0 <= j < prefixes.len() ==> !files.contains(#[trigger] gcc_file(prefixes[j], exe_suffix))
}

proof fn lemma_none_installed(files: Seq<Seq<char>>, prefixes: Seq<Seq<char>>, exe_suffix: Seq<char>)
    requires
        none_installed(files, prefixes, exe_suffix),
    ensures
        first_installed(files, prefixes, exe_suffix) is None,
    decreases prefixes.len(),
{
    if prefixes.len() > 0 {
        assert(!files.contains(gcc_file(prefixes[0], exe_suffix)));
        assert forall|j: int| 0 <= j < prefixes.drop_first().len() implies !files.contains(
            #[trigger] gcc_file(prefixes.drop_first()[j], exe_suffix),
        ) by {
            assert(prefixes.drop_first()[j] == prefixes[j + 1]);
        }
        lemma_none_installed(files, prefixes.drop_first(), exe_suffix);
    }
}

/// When no directory of `path` holds the compiler of any candidate, the
/// search gives the first candidate.
pub proof fn lemma_no_compiler_gives_first(
    path: Seq<Seq<Seq<char>>>,
    prefixes: Seq<Seq<char>>,
    exe_suffix: Seq<char>,
)
    requires
        prefixes.len() > 0,
        forall|i: int| 0 <= i < path.len() ==> none_installed(#[trigger] path[i], prefixes, exe_suffix),
    ensures
        working_prefix(path, prefixes, exe_suffix) == Some(prefixes[0]),
    decreases path.len(),
{
    if path.len() > 0 {
        lemma_none_installed(path[0], prefixes, exe_suffix);
        assert forall|i: int| 0 <= i < path.drop_first().len() implies none_installed(
            #[trigger] path.drop_first()[i],
            prefixes,
            exe_suffix,
        ) by {
            assert(path.drop_first()[i] == path[i + 1]);
        }
        lemma_no_compiler_gives_first(path.drop_first(), prefixes, exe_suffix);
    }
}

} // verus!
