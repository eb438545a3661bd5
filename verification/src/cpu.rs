//! CPU-architecture taxonomy and its classifier.

use crate::text::same_text;
use vstd::prelude::*;

verus! {

/// Members of the x86 family.
#[derive(Copy, Clone, Debug, PartialEq, Eq, Structural)]
pub enum X86 {
    AMD64,
    I386,
    I486,
    I586,
    I686,
    Intel8086,
}

/// Members of the ARM family.
#[derive(Copy, Clone, Debug, PartialEq, Eq, Structural)]
pub enum ARM {
    AArch32,
    AArch64,
    /// Never produced by [`detect_architecture`]: Apple's chips are reported
    /// as [`ARM::AArch64`].
    AppleSilicon,
}

/// Members of the MIPS family. [`detect_architecture`] produces only
/// [`MIPS::Mips32`] and [`MIPS::Mips64`]; the numbered revisions are for
/// callers that know the revision by other means.
#[derive(Copy, Clone, Debug, PartialEq, Eq, Structural)]
pub enum MIPS {
    MipsI,
    MipsII,
    MipsIII,
    MipsIV,
    MipsV,
    Mips32,
    Mips64,
}

/// The instruction-set architecture a program runs on.
#[derive(Copy, Clone, Debug, PartialEq, Eq, Structural)]
pub enum CPU {
    X86(X86),
    ARM(ARM),
    MIPS(MIPS),
    PowerPC,
    SPARC,
    RISC,
    RISCV,
    Alpha,
    IA64,
    HPPA,
    S390,
    S390X,
    SuperH,
    SystemZ,
    XCore,
    /// The architecture name is none of the supported ones. This is an
    /// answer, not a failure.
    Other,
}

/// The architecture names that [`cpu_of`] knows; all others classify as
/// [`CPU::Other`].
pub open spec fn supported_architecture(arch: Seq<char>) -> bool {
    ||| arch == "x86_64"@
    ||| arch == "i386"@
    ||| arch == "i486"@
    ||| arch == "i586"@
    ||| arch == "i686"@
    ||| arch == "8086"@
    ||| arch == "arm"@
    ||| arch == "aarch64"@
    ||| arch == "mips"@
    ||| arch == "mips64"@
    ||| arch == "powerpc"@
    ||| arch == "sparc"@
    ||| arch == "risc"@
    ||| arch == "riscv"@
    ||| arch == "alpha"@
    ||| arch == "ia64"@
    ||| arch == "hppa"@
    ||| arch == "s390"@
    ||| arch == "s390x"@
    ||| arch == "sh"@
    ||| arch == "systemz"@
    ||| arch == "xcore"@
}

/// The architecture that a name stands for, by exact match.
pub open spec fn cpu_of(arch: Seq<char>) -> CPU {
    if arch == "x86_64"@ {
        CPU::X86(X86::AMD64)
    } else if arch == "i386"@ {
        CPU::X86(X86::I386)
    } else if arch == "i486"@ {
        CPU::X86(X86::I486)
    } else if arch == "i586"@ {
        CPU::X86(X86::I586)
    } else if arch == "i686"@ {
        CPU::X86(X86::I686)
    } else if arch == "8086"@ {
        CPU::X86(X86::Intel8086)
    } else if arch == "arm"@ {
        CPU::ARM(ARM::AArch32)
    } else if arch == "aarch64"@ {
        CPU::ARM(ARM::AArch64)
    } else if arch == "mips"@ {
        CPU::MIPS(MIPS::Mips32)
    } else if arch == "mips64"@ {
        CPU::MIPS(MIPS::Mips64)
    } else if arch == "powerpc"@ {
        CPU::PowerPC
    } else if arch == "sparc"@ {
        CPU::SPARC
    } else if arch == "risc"@ {
        CPU::RISC
    } else if arch == "riscv"@ {
        CPU::RISCV
    } else if arch == "alpha"@ {
        CPU::Alpha
    } else if arch == "ia64"@ {
        CPU::IA64
    } else if arch == "hppa"@ {
        CPU::HPPA
    } else if arch == "s390"@ {
        CPU::S390
    } else if arch == "s390x"@ {
        CPU::S390X
    } else if arch == "sh"@ {
        CPU::SuperH
    } else if arch == "systemz"@ {
        CPU::SystemZ
    } else if arch == "xcore"@ {
        CPU::XCore
    } else {
        CPU::Other
    }
}

/// The variants that classification can produce: everything but
/// [`ARM::AppleSilicon`] and the numbered MIPS revisions.
pub open spec fn detectable_cpu(cpu: CPU) -> bool {
    match cpu {
        CPU::ARM(ARM::AppleSilicon) => false,
        CPU::MIPS(revision) => revision is Mips32 || revision is Mips64,
        _ => true,
    }
}

/// Classifies the CPU architecture from its name.
///
/// Every input has an answer. A name outside the supported set gives
/// [`CPU::Other`], and no supported name does.
pub fn detect_architecture(arch: &str) -> (cpu: CPU)
    ensures
        cpu == cpu_of(arch@),
        cpu is Other <==> !supported_architecture(arch@),
        detectable_cpu(cpu),
{
    if same_text(arch, "x86_64") {
        CPU::X86(X86::AMD64)
    } else if same_text(arch, "i386") {
        CPU::X86(X86::I386)
    } else if same_text(arch, "i486") {
        CPU::X86(X86::I486)
    } else if same_text(arch, "i586") {
        CPU::X86(X86::I586)
    } else if same_text(arch, "i686") {
        CPU::X86(X86::I686)
    } else if same_text(arch, "8086") {
        CPU::X86(X86::Intel8086)
    } else if same_text(arch, "arm") {
        CPU::ARM(ARM::AArch32)
    } else if same_text(arch, "aarch64") {
        CPU::ARM(ARM::AArch64)
    } else if same_text(arch, "mips") {
        CPU::MIPS(MIPS::Mips32)
    } else if same_text(arch, "mips64") {
        CPU::MIPS(MIPS::Mips64)
    } else if same_text(arch, "powerpc") {
        CPU::PowerPC
    } else if same_text(arch, "sparc") {
        CPU::SPARC
    } else if same_text(arch, "risc") {
        CPU::RISC
    } else if same_text(arch, "riscv") {
        CPU::RISCV
    } else if same_text(arch, "alpha") {
        CPU::Alpha
    } else if same_text(arch, "ia64") {
        CPU::IA64
    } else if same_text(arch, "hppa") {
        CPU::HPPA
    } else if same_text(arch, "s390") {
        CPU::S390
    } else if same_text(arch, "s390x") {
        CPU::S390X
    } else if same_text(arch, "sh") {
        CPU::SuperH
    } else if same_text(arch, "systemz") {
        CPU::SystemZ
    } else if same_text(arch, "xcore") {
        CPU::XCore
    } else {
        CPU::Other
    }
}

/// Length and first two characters of each supported architecture name:
/// enough to tell any two of them apart.
proof fn lemma_architecture_names()
    ensures
        "x86_64"@.len() == 6 && "x86_64"@[0] == 'x' && "x86_64"@[1] == '8',
        "i386"@.len() == 4 && "i386"@[0] == 'i' && "i386"@[1] == '3',
        "i486"@.len() == 4 && "i486"@[0] == 'i' && "i486"@[1] == '4',
        "i586"@.len() == 4 && "i586"@[0] == 'i' && "i586"@[1] == '5',
        "i686"@.len() == 4 && "i686"@[0] == 'i' && "i686"@[1] == '6',
        "8086"@.len() == 4 && "8086"@[0] == '8' && "8086"@[1] == '0',
        "arm"@.len() == 3 && "arm"@[0] == 'a' && "arm"@[1] == 'r',
        "aarch64"@.len() == 7 && "aarch64"@[0] == 'a' && "aarch64"@[1] == 'a',
        "mips"@.len() == 4 && "mips"@[0] == 'm' && "mips"@[1] == 'i',
        "mips64"@.len() == 6 && "mips64"@[0] == 'm' && "mips64"@[1] == 'i',
        "powerpc"@.len() == 7 && "powerpc"@[0] == 'p' && "powerpc"@[1] == 'o',
        "sparc"@.len() == 5 && "sparc"@[0] == 's' && "sparc"@[1] == 'p',
        "risc"@.len() == 4 && "risc"@[0] == 'r' && "risc"@[1] == 'i',
        "riscv"@.len() == 5 && "riscv"@[0] == 'r' && "riscv"@[1] == 'i',
        "alpha"@.len() == 5 && "alpha"@[0] == 'a' && "alpha"@[1] == 'l',
        "ia64"@.len() == 4 && "ia64"@[0] == 'i' && "ia64"@[1] == 'a',
        "hppa"@.len() == 4 && "hppa"@[0] == 'h' && "hppa"@[1] == 'p',
        "s390"@.len() == 4 && "s390"@[0] == 's' && "s390"@[1] == '3',
        "s390x"@.len() == 5 && "s390x"@[0] == 's' && "s390x"@[1] == '3',
        "sh"@.len() == 2 && "sh"@[0] == 's' && "sh"@[1] == 'h',
        "systemz"@.len() == 7 && "systemz"@[0] == 's' && "systemz"@[1] == 'y',
        "xcore"@.len() == 5 && "xcore"@[0] == 'x' && "xcore"@[1] == 'c',
{
    reveal_strlit("x86_64");
    reveal_strlit("i386");
    reveal_strlit("i486");
    reveal_strlit("i586");
    reveal_strlit("i686");
    reveal_strlit("8086");
    reveal_strlit("arm");
    reveal_strlit("aarch64");
    reveal_strlit("mips");
    reveal_strlit("mips64");
    reveal_strlit("powerpc");
    reveal_strlit("sparc");
    reveal_strlit("risc");
    reveal_strlit("riscv");
    reveal_strlit("alpha");
    reveal_strlit("ia64");
    reveal_strlit("hppa");
    reveal_strlit("s390");
    reveal_strlit("s390x");
    reveal_strlit("sh");
    reveal_strlit("systemz");
    reveal_strlit("xcore");
}

/// The supported architecture names are pairwise different texts, so each
/// has exactly one row and resolves to its own entry.
pub proof fn lemma_architecture_table()
    ensures
        cpu_of("x86_64"@) == CPU::X86(X86::AMD64),
        cpu_of("i386"@) == CPU::X86(X86::I386),
        cpu_of("i486"@) == CPU::X86(X86::I486),
        cpu_of("i586"@) == CPU::X86(X86::I586),
        cpu_of("i686"@) == CPU::X86(X86::I686),
        cpu_of("8086"@) == CPU::X86(X86::Intel8086),
        cpu_of("arm"@) == CPU::ARM(ARM::AArch32),
        cpu_of("aarch64"@) == CPU::ARM(ARM::AArch64),
        cpu_of("mips"@) == CPU::MIPS(MIPS::Mips32),
        cpu_of("mips64"@) == CPU::MIPS(MIPS::Mips64),
        cpu_of("powerpc"@) == CPU::PowerPC,
        cpu_of("sparc"@) == CPU::SPARC,
        cpu_of("risc"@) == CPU::RISC,
        cpu_of("riscv"@) == CPU::RISCV,
        cpu_of("alpha"@) == CPU::Alpha,
        cpu_of("ia64"@) == CPU::IA64,
        cpu_of("hppa"@) == CPU::HPPA,
        cpu_of("s390"@) == CPU::S390,
        cpu_of("s390x"@) == CPU::S390X,
        cpu_of("sh"@) == CPU::SuperH,
        cpu_of("systemz"@) == CPU::SystemZ,
        cpu_of("xcore"@) == CPU::XCore,
{
    lemma_architecture_names();
}

/// Classification is a function of the name alone: two evaluations on equal
/// names, whenever and wherever they are made, give equal results.
pub proof fn lemma_cpu_deterministic(arch1: Seq<char>, arch2: Seq<char>)
    requires
        arch1 =~= arch2,
    ensures
        cpu_of(arch1) == cpu_of(arch2),
{
}

/// Exactly the unsupported names classify as [`CPU::Other`], and no name
/// classifies as a variant outside [`detectable_cpu`].
pub proof fn lemma_cpu_total(arch: Seq<char>)
    ensures
        cpu_of(arch) is Other <==> !supported_architecture(arch),
        detectable_cpu(cpu_of(arch)),
{
}

} // verus!
