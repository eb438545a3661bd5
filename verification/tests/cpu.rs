use platform_detect::{detect_architecture, ARM, CPU, MIPS, X86};

#[test]
fn test_detect_architecture() {
    let arch = detect_architecture("x86_64");

    println!("{:?}", arch);
}

#[test]
fn x86_names() {
    assert_eq!(detect_architecture("x86_64"), CPU::X86(X86::AMD64));
    assert_eq!(detect_architecture("i386"), CPU::X86(X86::I386));
    assert_eq!(detect_architecture("i486"), CPU::X86(X86::I486));
    assert_eq!(detect_architecture("i586"), CPU::X86(X86::I586));
    assert_eq!(detect_architecture("i686"), CPU::X86(X86::I686));
    assert_eq!(detect_architecture("8086"), CPU::X86(X86::Intel8086));
}

#[test]
fn arm_names() {
    assert_eq!(detect_architecture("arm"), CPU::ARM(ARM::AArch32));
    assert_eq!(detect_architecture("aarch64"), CPU::ARM(ARM::AArch64));
}

#[test]
fn mips_names() {
    assert_eq!(detect_architecture("mips"), CPU::MIPS(MIPS::Mips32));
    assert_eq!(detect_architecture("mips64"), CPU::MIPS(MIPS::Mips64));
}

#[test]
fn flat_family_names() {
    assert_eq!(detect_architecture("powerpc"), CPU::PowerPC);
    assert_eq!(detect_architecture("sparc"), CPU::SPARC);
    assert_eq!(detect_architecture("risc"), CPU::RISC);
    assert_eq!(detect_architecture("riscv"), CPU::RISCV);
    assert_eq!(detect_architecture("alpha"), CPU::Alpha);
    assert_eq!(detect_architecture("ia64"), CPU::IA64);
    assert_eq!(detect_architecture("hppa"), CPU::HPPA);
    assert_eq!(detect_architecture("s390"), CPU::S390);
    assert_eq!(detect_architecture("s390x"), CPU::S390X);
    assert_eq!(detect_architecture("sh"), CPU::SuperH);
    assert_eq!(detect_architecture("systemz"), CPU::SystemZ);
    assert_eq!(detect_architecture("xcore"), CPU::XCore);
}

#[test]
fn unsupported_architecture_names_are_other() {
    for arch in [
        "nonexistent-arch", "", "X86_64", "x86-64", "x86", "amd64", "arm64", "aarch32", "i786",
        "mips32", "riscv64", "powerpc64", "sh4", "s390 ", " arm", "wasm32", "ａｒｍ",
    ] {
        assert_eq!(detect_architecture(arch), CPU::Other);
    }
}

#[test]
fn apple_silicon_reads_as_aarch64() {
    assert_ne!(detect_architecture("aarch64"), CPU::ARM(ARM::AppleSilicon));
    assert_eq!(detect_architecture("aarch64"), CPU::ARM(ARM::AArch64));
}

#[test]
fn detect_architecture_repeats_its_answer() {
    for arch in ["x86_64", "arm", "mips64", "sh", "unheard-of"] {
        let first = detect_architecture(arch);
        let second = detect_architecture(arch);
        assert_eq!(first, second);
        let owned = String::from(arch);
        assert_eq!(detect_architecture(&owned), first);
    }
}

#[test]
fn undetected_cpu_variants_can_still_be_built() {
    let revisions = [MIPS::MipsI, MIPS::MipsII, MIPS::MipsIII, MIPS::MipsIV, MIPS::MipsV];
    for revision in revisions {
        assert_ne!(CPU::MIPS(revision), detect_architecture("mips"));
        assert_ne!(CPU::MIPS(revision), detect_architecture("mips64"));
    }
    assert_ne!(CPU::ARM(ARM::AppleSilicon), CPU::ARM(ARM::AArch64));
}

#[test]
fn cpu_values_print_for_debugging() {
    assert_eq!(format!("{:?}", detect_architecture("aarch64")), "ARM(AArch64)");
    assert_eq!(format!("{:?}", detect_architecture("nonexistent-arch")), "Other");
}
