//! Classification of a runtime platform from its identifying signals.
//!
//! Three independent classifiers map plain signal values (a platform name, an
//! architecture name, and the state of a few session variables) to a closed
//! taxonomy of operating systems, CPU families and window systems. Each
//! classifier is a total function of the signals it is handed: nothing is read
//! from the surrounding process, and every input has a defined answer.

pub mod cpu;
pub mod os;
pub mod text;
pub mod window;

pub use cpu::{detect_architecture, ARM, CPU, MIPS, X86};
pub use os::{detect_os, DarwinKernel, LinuxKernel, NTKernel, OperatingSystem, UnixLike};
pub use window::{detect_windowsystem, WindowSystem};
