//! Resolution of the native toolchain (C and C++ compilers, archiver, ranlib,
//! sysroot) that a CMake build for a given target should use.

pub mod compiler;
pub mod environment;
pub mod prefix;
pub mod text;
pub mod toolchain;

pub use compiler::ToolchainError;
pub use environment::Environment;
pub use toolchain::CMakeToolchain;
