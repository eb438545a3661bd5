//! Operating-system taxonomy and its classifier.

use crate::text::same_text;
use vstd::prelude::*;

verus! {

/// Flavors of a system built on the Linux kernel.
#[derive(Copy, Clone, Debug, PartialEq, Eq, Structural)]
pub enum LinuxKernel {
    /// An ordinary distribution linked against the GNU C library.
    NormalGnu,
    /// An ordinary distribution linked against musl.
    NormalMusl,
    Android,
    /// Never produced by [`detect_os`]; available to callers that know better.
    ChromeOS,
}

/// Flavors of a system built on the Darwin kernel.
#[derive(Copy, Clone, Debug, PartialEq, Eq, Structural)]
pub enum DarwinKernel {
    MacOS,
    IOS,
    IPadOS,
    WatchOS,
    TVOS,
}

/// Systems that follow Unix conventions (forward-slash paths and the like).
#[derive(Copy, Clone, Debug, PartialEq, Eq, Structural)]
pub enum UnixLike {
    Linux(LinuxKernel),
    Darwin(DarwinKernel),
    /// FreeBSD, NetBSD, OpenBSD or DragonFly; the flavor is not told apart.
    BSD,
    SolarisOrIllumos,
}

/// Systems that run on the NT kernel.
#[derive(Copy, Clone, Debug, PartialEq, Eq, Structural)]
pub enum NTKernel {
    Windows,
    /// Never produced by [`detect_os`]: server editions are reported as
    /// [`NTKernel::Windows`].
    WindowsServer,
}

/// The operating system a program runs on.
#[derive(Copy, Clone, Debug, PartialEq, Eq, Structural)]
pub enum OperatingSystem {
    UnixLike(UnixLike),
    Windows(NTKernel),
    DOS,
    /// The platform name is none of the supported ones.
    Unknown,
}

/// The Linux flavor that a C-library ABI name stands for: musl is told apart,
/// and every other name, `"gnu"` included, counts as GNU.
pub open spec fn linux_kernel_of(abi: Seq<char>) -> LinuxKernel {
    if abi == "musl"@ {
        LinuxKernel::NormalMusl
    } else {
        LinuxKernel::NormalGnu
    }
}

/// The Darwin flavor that a family name stands for. Names outside the four
/// mobile and embedded families, `"macos"` included, count as macOS.
pub open spec fn darwin_kernel_of(family: Seq<char>) -> DarwinKernel {
    if family == "ios"@ {
        DarwinKernel::IOS
    } else if family == "ipados"@ {
        DarwinKernel::IPadOS
    } else if family == "watchos"@ {
        DarwinKernel::WatchOS
    } else if family == "tvos"@ {
        DarwinKernel::TVOS
    } else {
        DarwinKernel::MacOS
    }
}

/// Platform names of the BSD family.
pub open spec fn is_bsd_name(platform: Seq<char>) -> bool {
    ||| platform == "freebsd"@
    ||| platform == "netbsd"@
    ||| platform == "openbsd"@
    ||| platform == "dragonfly"@
}

/// Platform names of the Solaris family.
pub open spec fn is_solaris_name(platform: Seq<char>) -> bool {
    ||| platform == "solaris"@
    ||| platform == "illumos"@
}

/// The platform names that [`os_of`] knows; all others classify as
/// [`OperatingSystem::Unknown`].
pub open spec fn supported_platform(platform: Seq<char>) -> bool {
    ||| platform == "linux"@
    ||| platform == "macos"@
    ||| platform == "windows"@
    ||| is_bsd_name(platform)
    ||| is_solaris_name(platform)
    ||| platform == "dos"@
    ||| platform == "android"@
    ||| platform == "ios"@
}

/// The operating system that the signals stand for. `platform` is matched
/// exactly; `abi` is consulted only for `"linux"` and `family` only for
/// `"macos"`.
pub open spec fn os_of(platform: Seq<char>, abi: Seq<char>, family: Seq<char>) -> OperatingSystem {
    if platform == "linux"@ {
        OperatingSystem::UnixLike(UnixLike::Linux(linux_kernel_of(abi)))
    } else if platform == "macos"@ {
        OperatingSystem::UnixLike(UnixLike::Darwin(darwin_kernel_of(family)))
    } else if platform == "windows"@ {
        OperatingSystem::Windows(NTKernel::Windows)
    } else if is_bsd_name(platform) {
        OperatingSystem::UnixLike(UnixLike::BSD)
    } else if is_solaris_name(platform) {
        OperatingSystem::UnixLike(UnixLike::SolarisOrIllumos)
    } else if platform == "dos"@ {
        OperatingSystem::DOS
    } else if platform == "android"@ {
        OperatingSystem::UnixLike(UnixLike::Linux(LinuxKernel::Android))
    } else if platform == "ios"@ {
        OperatingSystem::UnixLike(UnixLike::Darwin(DarwinKernel::IOS))
    } else {
        OperatingSystem::Unknown
    }
}

/// Resolves the Linux flavor from the name of the C-library ABI: `"gnu"`
/// first, then `"musl"`, and GNU again for anything else.
pub fn linux_kernel(abi: &str) -> (kernel: LinuxKernel)
    ensures
        kernel == linux_kernel_of(abi@),
        kernel is NormalGnu || kernel is NormalMusl,
{
    if same_text(abi, "gnu") {
        proof {
            lemma_flavor_names();
        }
        LinuxKernel::NormalGnu
    } else if same_text(abi, "musl") {
        LinuxKernel::NormalMusl
    } else {
        LinuxKernel::NormalGnu
    }
}

/// Resolves the Darwin flavor from the name of the OS family, checked in the
/// order `"ios"`, `"macos"`, `"ipados"`, `"watchos"`, `"tvos"`, with macOS for
/// anything else.
pub fn darwin_kernel(family: &str) -> (kernel: DarwinKernel)
    ensures
        kernel == darwin_kernel_of(family@),
{
    if same_text(family, "ios") {
        DarwinKernel::IOS
    } else if same_text(family, "macos") {
        proof {
            lemma_flavor_names();
        }
        DarwinKernel::MacOS
    } else if same_text(family, "ipados") {
        DarwinKernel::IPadOS
    } else if same_text(family, "watchos") {
        DarwinKernel::WatchOS
    } else if same_text(family, "tvos") {
        DarwinKernel::TVOS
    } else {
        DarwinKernel::MacOS
    }
}

/// Classifies the operating system from its signals: the platform name, the
/// name of the C-library ABI and the name of the OS family.
///
/// Every input has an answer. A platform name outside the supported set gives
/// [`OperatingSystem::Unknown`], and no supported name does.
/// [`NTKernel::WindowsServer`] and [`LinuxKernel::ChromeOS`] are never
/// reported.
pub fn detect_os(platform: &str, abi: &str, family: &str) -> (os: OperatingSystem)
    ensures
        os == os_of(platform@, abi@, family@),
        os is Unknown <==> !supported_platform(platform@),
        os != OperatingSystem::Windows(NTKernel::WindowsServer),
        os != OperatingSystem::UnixLike(UnixLike::Linux(LinuxKernel::ChromeOS)),
{
    if same_text(platform, "linux") {
        OperatingSystem::UnixLike(UnixLike::Linux(linux_kernel(abi)))
    } else if same_text(platform, "macos") {
        OperatingSystem::UnixLike(UnixLike::Darwin(darwin_kernel(family)))
    } else if same_text(platform, "windows") {
        OperatingSystem::Windows(NTKernel::Windows)
    } else if same_text(platform, "freebsd") || same_text(platform, "netbsd") || same_text(
        platform,
        "openbsd",
    ) || same_text(platform, "dragonfly") {
        OperatingSystem::UnixLike(UnixLike::BSD)
    } else if same_text(platform, "solaris") || same_text(platform, "illumos") {
        OperatingSystem::UnixLike(UnixLike::SolarisOrIllumos)
    } else if same_text(platform, "dos") {
        OperatingSystem::DOS
    } else if same_text(platform, "android") {
        OperatingSystem::UnixLike(UnixLike::Linux(LinuxKernel::Android))
    } else if same_text(platform, "ios") {
        OperatingSystem::UnixLike(UnixLike::Darwin(DarwinKernel::IOS))
    } else {
        OperatingSystem::Unknown
    }
}

/// Length and first character of each supported platform name: enough to
/// tell any two of them apart.
proof fn lemma_platform_names()
    ensures
        "linux"@.len() == 5 && "linux"@[0] == 'l',
        "macos"@.len() == 5 && "macos"@[0] == 'm',
        "windows"@.len() == 7 && "windows"@[0] == 'w',
        "freebsd"@.len() == 7 && "freebsd"@[0] == 'f',
        "netbsd"@.len() == 6 && "netbsd"@[0] == 'n',
        "openbsd"@.len() == 7 && "openbsd"@[0] == 'o',
        "dragonfly"@.len() == 9 && "dragonfly"@[0] == 'd',
        "solaris"@.len() == 7 && "solaris"@[0] == 's',
        "illumos"@.len() == 7 && "illumos"@[0] == 'i',
        "dos"@.len() == 3 && "dos"@[0] == 'd',
        "android"@.len() == 7 && "android"@[0] == 'a',
        "ios"@.len() == 3 && "ios"@[0] == 'i',
{
    reveal_strlit("linux");
    reveal_strlit("macos");
    reveal_strlit("windows");
    reveal_strlit("freebsd");
    reveal_strlit("netbsd");
    reveal_strlit("openbsd");
    reveal_strlit("dragonfly");
    reveal_strlit("solaris");
    reveal_strlit("illumos");
    reveal_strlit("dos");
    reveal_strlit("android");
    reveal_strlit("ios");
}

/// Length and first character of each ABI and family name.
proof fn lemma_flavor_names()
    ensures
        "gnu"@.len() == 3 && "gnu"@[0] == 'g',
        "musl"@.len() == 4 && "musl"@[0] == 'm',
        "ios"@.len() == 3 && "ios"@[0] == 'i',
        "macos"@.len() == 5 && "macos"@[0] == 'm',
        "ipados"@.len() == 6 && "ipados"@[0] == 'i',
        "watchos"@.len() == 7 && "watchos"@[0] == 'w',
        "tvos"@.len() == 4 && "tvos"@[0] == 't',
{
    reveal_strlit("gnu");
    reveal_strlit("musl");
    reveal_strlit("ios");
    reveal_strlit("macos");
    reveal_strlit("ipados");
    reveal_strlit("watchos");
    reveal_strlit("tvos");
}

/// The supported platform names are pairwise different texts, so each has
/// exactly one row: every name resolves to its own entry, with the ABI
/// deciding under `"linux"` and the family under `"macos"`.
pub proof fn lemma_platform_table(abi: Seq<char>, family: Seq<char>)
    ensures
        os_of("linux"@, abi, family) == OperatingSystem::UnixLike(
            UnixLike::Linux(linux_kernel_of(abi)),
        ),
        os_of("macos"@, abi, family) == OperatingSystem::UnixLike(
            UnixLike::Darwin(darwin_kernel_of(family)),
        ),
        os_of("windows"@, abi, family) == OperatingSystem::Windows(NTKernel::Windows),
        os_of("freebsd"@, abi, family) == OperatingSystem::UnixLike(UnixLike::BSD),
        os_of("netbsd"@, abi, family) == OperatingSystem::UnixLike(UnixLike::BSD),
        os_of("openbsd"@, abi, family) == OperatingSystem::UnixLike(UnixLike::BSD),
        os_of("dragonfly"@, abi, family) == OperatingSystem::UnixLike(UnixLike::BSD),
        os_of("solaris"@, abi, family) == OperatingSystem::UnixLike(UnixLike::SolarisOrIllumos),
        os_of("illumos"@, abi, family) == OperatingSystem::UnixLike(UnixLike::SolarisOrIllumos),
        os_of("dos"@, abi, family) == OperatingSystem::DOS,
        os_of("android"@, abi, family) == OperatingSystem::UnixLike(
            UnixLike::Linux(LinuxKernel::Android),
        ),
        os_of("ios"@, abi, family) == OperatingSystem::UnixLike(
            UnixLike::Darwin(DarwinKernel::IOS),
        ),
{
    lemma_platform_names();
}

/// Each secondary signal has exactly one row: `"gnu"` and `"musl"` resolve to
/// their Linux flavors, and each Darwin family name to its own flavor.
pub proof fn lemma_flavor_table()
    ensures
        linux_kernel_of("gnu"@) == LinuxKernel::NormalGnu,
        linux_kernel_of("musl"@) == LinuxKernel::NormalMusl,
        darwin_kernel_of("ios"@) == DarwinKernel::IOS,
        darwin_kernel_of("macos"@) == DarwinKernel::MacOS,
        darwin_kernel_of("ipados"@) == DarwinKernel::IPadOS,
        darwin_kernel_of("watchos"@) == DarwinKernel::WatchOS,
        darwin_kernel_of("tvos"@) == DarwinKernel::TVOS,
{
    lemma_flavor_names();
}

/// Classification is a function of the signals alone: two evaluations on
/// equal signals, whenever and wherever they are made, give equal results.
pub proof fn lemma_os_deterministic(
    platform1: Seq<char>,
    abi1: Seq<char>,
    family1: Seq<char>,
    platform2: Seq<char>,
    abi2: Seq<char>,
    family2: Seq<char>,
)
    requires
        platform1 =~= platform2,
        abi1 =~= abi2,
        family1 =~= family2,
    ensures
        os_of(platform1, abi1, family1) == os_of(platform2, abi2, family2),
{
}

/// Exactly the unsupported platform names classify as
/// [`OperatingSystem::Unknown`], and no signals classify as
/// [`NTKernel::WindowsServer`] or [`LinuxKernel::ChromeOS`].
pub proof fn lemma_os_total(platform: Seq<char>, abi: Seq<char>, family: Seq<char>)
    ensures
        os_of(platform, abi, family) is Unknown <==> !supported_platform(platform),
        os_of(platform, abi, family) != OperatingSystem::Windows(NTKernel::WindowsServer),
        os_of(platform, abi, family) != OperatingSystem::UnixLike(
            UnixLike::Linux(LinuxKernel::ChromeOS),
        ),
{
}

/// The ABI matters only under `"linux"` and the family only under `"macos"`:
/// on any other platform name the secondary signals do not change the answer.
pub proof fn lemma_secondary_signals_scoped(
    platform: Seq<char>,
    abi1: Seq<char>,
    family1: Seq<char>,
    abi2: Seq<char>,
    family2: Seq<char>,
)
    ensures
        platform != "linux"@ && platform != "macos"@ ==> os_of(platform, abi1, family1) == os_of(
            platform,
            abi2,
            family2,
        ),
        platform != "macos"@ ==> os_of(platform, abi1, family1) == os_of(platform, abi1, family2),
        platform != "linux"@ ==> os_of(platform, abi1, family1) == os_of(platform, abi2, family1),
{
}

} // verus!
