//! Target operating systems and architectures, in Rust's and Go's names.
use vstd::prelude::*;
use crate::text::{lemma_split_seq_len, debug_str, debug_string, split_char, split_seq, replace_char, replace_char_str, str_eq, views};

verus! {

/// An operating system as Go names it (`GOOS`).
#[allow(non_camel_case_types)]
#[derive(Clone, Copy, Debug, PartialEq, Eq, Structural)]
pub enum GoOS {
    aix,
    android,
    darwin,
    dragonfly,
    freebsd,
    illumos,
    ios,
    js,
    linux,
    netbsd,
    openbsd,
    plan9,
    solaris,
    windows,
}

/// The name of a Go operating system.
pub open spec fn go_os_name(v: GoOS) -> Seq<char> {
    match v {
        GoOS::aix => "aix"@,
        GoOS::android => "android"@,
        GoOS::darwin => "darwin"@,
        GoOS::dragonfly => "dragonfly"@,
        GoOS::freebsd => "freebsd"@,
        GoOS::illumos => "illumos"@,
        GoOS::ios => "ios"@,
        GoOS::js => "js"@,
        GoOS::linux => "linux"@,
        GoOS::netbsd => "netbsd"@,
        GoOS::openbsd => "openbsd"@,
        GoOS::plan9 => "plan9"@,
        GoOS::solaris => "solaris"@,
        GoOS::windows => "windows"@,
    }
}

/// The a Go operating system named `s`, if any.
pub open spec fn go_os_from_name(s: Seq<char>) -> Option<GoOS> {
    if s == "aix"@ {
        Some(GoOS::aix)
    } else if s == "android"@ {
        Some(GoOS::android)
    } else if s == "darwin"@ {
        Some(GoOS::darwin)
    } else if s == "dragonfly"@ {
        Some(GoOS::dragonfly)
    } else if s == "freebsd"@ {
        Some(GoOS::freebsd)
    } else if s == "illumos"@ {
        Some(GoOS::illumos)
    } else if s == "ios"@ {
        Some(GoOS::ios)
    } else if s == "js"@ {
        Some(GoOS::js)
    } else if s == "linux"@ {
        Some(GoOS::linux)
    } else if s == "netbsd"@ {
        Some(GoOS::netbsd)
    } else if s == "openbsd"@ {
        Some(GoOS::openbsd)
    } else if s == "plan9"@ {
        Some(GoOS::plan9)
    } else if s == "solaris"@ {
        Some(GoOS::solaris)
    } else if s == "windows"@ {
        Some(GoOS::windows)
    } else {
        None
    }
}

impl GoOS {
    /// The name of this Go operating system.
    pub fn as_ref(&self) -> (r: &'static str)
        ensures
            r@ == go_os_name(*self),
    {
        match self {
            GoOS::aix => "aix",
            GoOS::android => "android",
            GoOS::darwin => "darwin",
            GoOS::dragonfly => "dragonfly",
            GoOS::freebsd => "freebsd",
            GoOS::illumos => "illumos",
            GoOS::ios => "ios",
            GoOS::js => "js",
            GoOS::linux => "linux",
            GoOS::netbsd => "netbsd",
            GoOS::openbsd => "openbsd",
            GoOS::plan9 => "plan9",
            GoOS::solaris => "solaris",
            GoOS::windows => "windows",
        }
    }

    /// The Go operating system named `s`; none for an unknown name.
    pub fn from_str(s: &str) -> (r: Option<GoOS>)
        ensures
            r == go_os_from_name(s@),
    {
        if str_eq(s, "aix") {
            Some(GoOS::aix)
        } else if str_eq(s, "android") {
            Some(GoOS::android)
        } else if str_eq(s, "darwin") {
            Some(GoOS::darwin)
        } else if str_eq(s, "dragonfly") {
            Some(GoOS::dragonfly)
        } else if str_eq(s, "freebsd") {
            Some(GoOS::freebsd)
        } else if str_eq(s, "illumos") {
            Some(GoOS::illumos)
        } else if str_eq(s, "ios") {
            Some(GoOS::ios)
        } else if str_eq(s, "js") {
            Some(GoOS::js)
        } else if str_eq(s, "linux") {
            Some(GoOS::linux)
        } else if str_eq(s, "netbsd") {
            Some(GoOS::netbsd)
        } else if str_eq(s, "openbsd") {
            Some(GoOS::openbsd)
        } else if str_eq(s, "plan9") {
            Some(GoOS::plan9)
        } else if str_eq(s, "solaris") {
            Some(GoOS::solaris)
        } else if str_eq(s, "windows") {
            Some(GoOS::windows)
        } else {
            None
        }
    }
}

/// An architecture as Go names it (`GOARCH`).
#[allow(non_camel_case_types)]
#[derive(Clone, Copy, Debug, PartialEq, Eq, Structural)]
pub enum GoArch {
    _386,
    amd64,
    arm,
    arm64,
    loong64,
    mips,
    mips64,
    mips64le,
    mipsle,
    ppc64,
    ppc64le,
    riscv64,
    s390x,
    wasm,
}

/// The name of a Go architecture.
pub open spec fn go_arch_name(v: GoArch) -> Seq<char> {
    match v {
        GoArch::_386 => "386"@,
        GoArch::amd64 => "amd64"@,
        GoArch::arm => "arm"@,
        GoArch::arm64 => "arm64"@,
        GoArch::loong64 => "loong64"@,
        GoArch::mips => "mips"@,
        GoArch::mips64 => "mips64"@,
        GoArch::mips64le => "mips64le"@,
        GoArch::mipsle => "mipsle"@,
        GoArch::ppc64 => "ppc64"@,
        GoArch::ppc64le => "ppc64le"@,
        GoArch::riscv64 => "riscv64"@,
        GoArch::s390x => "s390x"@,
        GoArch::wasm => "wasm"@,
    }
}

/// The a Go architecture named `s`, if any.
pub open spec fn go_arch_from_name(s: Seq<char>) -> Option<GoArch> {
    if s == "386"@ {
        Some(GoArch::_386)
    } else if s == "amd64"@ {
        Some(GoArch::amd64)
    } else if s == "arm"@ {
        Some(GoArch::arm)
    } else if s == "arm64"@ {
        Some(GoArch::arm64)
    } else if s == "loong64"@ {
        Some(GoArch::loong64)
    } else if s == "mips"@ {
        Some(GoArch::mips)
    } else if s == "mips64"@ {
        Some(GoArch::mips64)
    } else if s == "mips64le"@ {
        Some(GoArch::mips64le)
    } else if s == "mipsle"@ {
        Some(GoArch::mipsle)
    } else if s == "ppc64"@ {
        Some(GoArch::ppc64)
    } else if s == "ppc64le"@ {
        Some(GoArch::ppc64le)
    } else if s == "riscv64"@ {
        Some(GoArch::riscv64)
    } else if s == "s390x"@ {
        Some(GoArch::s390x)
    } else if s == "wasm"@ {
        Some(GoArch::wasm)
    } else {
        None
    }
}

impl GoArch {
    /// The name of this Go architecture.
    pub fn as_ref(&self) -> (r: &'static str)
        ensures
            r@ == go_arch_name(*self),
    {
        match self {
            GoArch::_386 => "386",
            GoArch::amd64 => "amd64",
            GoArch::arm => "arm",
            GoArch::arm64 => "arm64",
            GoArch::loong64 => "loong64",
            GoArch::mips => "mips",
            GoArch::mips64 => "mips64",
            GoArch::mips64le => "mips64le",
            GoArch::mipsle => "mipsle",
            GoArch::ppc64 => "ppc64",
            GoArch::ppc64le => "ppc64le",
            GoArch::riscv64 => "riscv64",
            GoArch::s390x => "s390x",
            GoArch::wasm => "wasm",
        }
    }

    /// The Go architecture named `s`; none for an unknown name.
    pub fn from_str(s: &str) -> (r: Option<GoArch>)
        ensures
            r == go_arch_from_name(s@),
    {
        if str_eq(s, "386") {
            Some(GoArch::_386)
        } else if str_eq(s, "amd64") {
            Some(GoArch::amd64)
        } else if str_eq(s, "arm") {
            Some(GoArch::arm)
        } else if str_eq(s, "arm64") {
            Some(GoArch::arm64)
        } else if str_eq(s, "loong64") {
            Some(GoArch::loong64)
        } else if str_eq(s, "mips") {
            Some(GoArch::mips)
        } else if str_eq(s, "mips64") {
            Some(GoArch::mips64)
        } else if str_eq(s, "mips64le") {
            Some(GoArch::mips64le)
        } else if str_eq(s, "mipsle") {
            Some(GoArch::mipsle)
        } else if str_eq(s, "ppc64") {
            Some(GoArch::ppc64)
        } else if str_eq(s, "ppc64le") {
            Some(GoArch::ppc64le)
        } else if str_eq(s, "riscv64") {
            Some(GoArch::riscv64)
        } else if str_eq(s, "s390x") {
            Some(GoArch::s390x)
        } else if str_eq(s, "wasm") {
            Some(GoArch::wasm)
        } else {
            None
        }
    }
}

/// The operating-system part of a Rust target triple.
#[allow(non_camel_case_types)]
#[derive(Clone, Copy, Debug, PartialEq, Eq, Structural)]
pub enum RustOS {
    _3ds,
    aix,
    android,
    androideabi,
    cuda,
    darwin,
    dragonfly,
    eabi,
    eabihf,
    elf,
    emscripten,
    espidf,
    freebsd,
    fuchsia,
    gnu,
    haiku,
    hermit,
    illumos,
    ios,
    l4re,
    linux,
    netbsd,
    none,
    nto,
    openbsd,
    psp,
    psx,
    redox,
    solaris,
    solid_asp3,
    switch,
    tvos,
    uefi,
    unknown,
    vita,
    vxworks,
    watchos,
    windows,
    xous,
}

/// The name of a Rust operating system.
pub open spec fn rust_os_name(v: RustOS) -> Seq<char> {
    match v {
        RustOS::_3ds => "3ds"@,
        RustOS::aix => "aix"@,
        RustOS::android => "android"@,
        RustOS::androideabi => "androideabi"@,
        RustOS::cuda => "cuda"@,
        RustOS::darwin => "darwin"@,
        RustOS::dragonfly => "dragonfly"@,
        RustOS::eabi => "eabi"@,
        RustOS::eabihf => "eabihf"@,
        RustOS::elf => "elf"@,
        RustOS::emscripten => "emscripten"@,
        RustOS::espidf => "espidf"@,
        RustOS::freebsd => "freebsd"@,
        RustOS::fuchsia => "fuchsia"@,
        RustOS::gnu => "gnu"@,
        RustOS::haiku => "haiku"@,
        RustOS::hermit => "hermit"@,
        RustOS::illumos => "illumos"@,
        RustOS::ios => "ios"@,
        RustOS::l4re => "l4re"@,
        RustOS::linux => "linux"@,
        RustOS::netbsd => "netbsd"@,
        RustOS::none => "none"@,
        RustOS::nto => "nto"@,
        RustOS::openbsd => "openbsd"@,
        RustOS::psp => "psp"@,
        RustOS::psx => "psx"@,
        RustOS::redox => "redox"@,
        RustOS::solaris => "solaris"@,
        RustOS::solid_asp3 => "solid_asp3"@,
        RustOS::switch => "switch"@,
        RustOS::tvos => "tvos"@,
        RustOS::uefi => "uefi"@,
        RustOS::unknown => "unknown"@,
        RustOS::vita => "vita"@,
        RustOS::vxworks => "vxworks"@,
        RustOS::watchos => "watchos"@,
        RustOS::windows => "windows"@,
        RustOS::xous => "xous"@,
    }
}

/// The a Rust operating system named `s`, if any.
pub open spec fn rust_os_from_name(s: Seq<char>) -> Option<RustOS> {
    if s == "3ds"@ {
        Some(RustOS::_3ds)
    } else if s == "aix"@ {
        Some(RustOS::aix)
    } else if s == "android"@ {
        Some(RustOS::android)
    } else if s == "androideabi"@ {
        Some(RustOS::androideabi)
    } else if s == "cuda"@ {
        Some(RustOS::cuda)
    } else if s == "darwin"@ {
        Some(RustOS::darwin)
    } else if s == "dragonfly"@ {
        Some(RustOS::dragonfly)
    } else if s == "eabi"@ {
        Some(RustOS::eabi)
    } else if s == "eabihf"@ {
        Some(RustOS::eabihf)
    } else if s == "elf"@ {
        Some(RustOS::elf)
    } else if s == "emscripten"@ {
        Some(RustOS::emscripten)
    } else if s == "espidf"@ {
        Some(RustOS::espidf)
    } else if s == "freebsd"@ {
        Some(RustOS::freebsd)
    } else if s == "fuchsia"@ {
        Some(RustOS::fuchsia)
    } else if s == "gnu"@ {
        Some(RustOS::gnu)
    } else if s == "haiku"@ {
        Some(RustOS::haiku)
    } else if s == "hermit"@ {
        Some(RustOS::hermit)
    } else if s == "illumos"@ {
        Some(RustOS::illumos)
    } else if s == "ios"@ {
        Some(RustOS::ios)
    } else if s == "l4re"@ {
        Some(RustOS::l4re)
    } else if s == "linux"@ {
        Some(RustOS::linux)
    } else if s == "netbsd"@ {
        Some(RustOS::netbsd)
    } else if s == "none"@ {
        Some(RustOS::none)
    } else if s == "nto"@ {
        Some(RustOS::nto)
    } else if s == "openbsd"@ {
        Some(RustOS::openbsd)
    } else if s == "psp"@ {
        Some(RustOS::psp)
    } else if s == "psx"@ {
        Some(RustOS::psx)
    } else if s == "redox"@ {
        Some(RustOS::redox)
    } else if s == "solaris"@ {
        Some(RustOS::solaris)
    } else if s == "solid_asp3"@ {
        Some(RustOS::solid_asp3)
    } else if s == "switch"@ {
        Some(RustOS::switch)
    } else if s == "tvos"@ {
        Some(RustOS::tvos)
    } else if s == "uefi"@ {
        Some(RustOS::uefi)
    } else if s == "unknown"@ {
        Some(RustOS::unknown)
    } else if s == "vita"@ {
        Some(RustOS::vita)
    } else if s == "vxworks"@ {
        Some(RustOS::vxworks)
    } else if s == "watchos"@ {
        Some(RustOS::watchos)
    } else if s == "windows"@ {
        Some(RustOS::windows)
    } else if s == "xous"@ {
        Some(RustOS::xous)
    } else {
        None
    }
}

impl RustOS {
    /// The name of this Rust operating system.
    pub fn as_ref(&self) -> (r: &'static str)
        ensures
            r@ == rust_os_name(*self),
    {
        match self {
            RustOS::_3ds => "3ds",
            RustOS::aix => "aix",
            RustOS::android => "android",
            RustOS::androideabi => "androideabi",
            RustOS::cuda => "cuda",
            RustOS::darwin => "darwin",
            RustOS::dragonfly => "dragonfly",
            RustOS::eabi => "eabi",
            RustOS::eabihf => "eabihf",
            RustOS::elf => "elf",
            RustOS::emscripten => "emscripten",
            RustOS::espidf => "espidf",
            RustOS::freebsd => "freebsd",
            RustOS::fuchsia => "fuchsia",
            RustOS::gnu => "gnu",
            RustOS::haiku => "haiku",
            RustOS::hermit => "hermit",
            RustOS::illumos => "illumos",
            RustOS::ios => "ios",
            RustOS::l4re => "l4re",
            RustOS::linux => "linux",
            RustOS::netbsd => "netbsd",
            RustOS::none => "none",
            RustOS::nto => "nto",
            RustOS::openbsd => "openbsd",
            RustOS::psp => "psp",
            RustOS::psx => "psx",
            RustOS::redox => "redox",
            RustOS::solaris => "solaris",
            RustOS::solid_asp3 => "solid_asp3",
            RustOS::switch => "switch",
            RustOS::tvos => "tvos",
            RustOS::uefi => "uefi",
            RustOS::unknown => "unknown",
            RustOS::vita => "vita",
            RustOS::vxworks => "vxworks",
            RustOS::watchos => "watchos",
            RustOS::windows => "windows",
            RustOS::xous => "xous",
        }
    }

    /// The Rust operating system named `s`; none for an unknown name.
    pub fn from_str(s: &str) -> (r: Option<RustOS>)
        ensures
            r == rust_os_from_name(s@),
    {
        if str_eq(s, "3ds") {
            Some(RustOS::_3ds)
        } else if str_eq(s, "aix") {
            Some(RustOS::aix)
        } else if str_eq(s, "android") {
            Some(RustOS::android)
        } else if str_eq(s, "androideabi") {
            Some(RustOS::androideabi)
        } else if str_eq(s, "cuda") {
            Some(RustOS::cuda)
        } else if str_eq(s, "darwin") {
            Some(RustOS::darwin)
        } else if str_eq(s, "dragonfly") {
            Some(RustOS::dragonfly)
        } else if str_eq(s, "eabi") {
            Some(RustOS::eabi)
        } else if str_eq(s, "eabihf") {
            Some(RustOS::eabihf)
        } else if str_eq(s, "elf") {
            Some(RustOS::elf)
        } else if str_eq(s, "emscripten") {
            Some(RustOS::emscripten)
        } else if str_eq(s, "espidf") {
            Some(RustOS::espidf)
        } else if str_eq(s, "freebsd") {
            Some(RustOS::freebsd)
        } else if str_eq(s, "fuchsia") {
            Some(RustOS::fuchsia)
        } else if str_eq(s, "gnu") {
            Some(RustOS::gnu)
        } else if str_eq(s, "haiku") {
            Some(RustOS::haiku)
        } else if str_eq(s, "hermit") {
            Some(RustOS::hermit)
        } else if str_eq(s, "illumos") {
            Some(RustOS::illumos)
        } else if str_eq(s, "ios") {
            Some(RustOS::ios)
        } else if str_eq(s, "l4re") {
            Some(RustOS::l4re)
        } else if str_eq(s, "linux") {
            Some(RustOS::linux)
        } else if str_eq(s, "netbsd") {
            Some(RustOS::netbsd)
        } else if str_eq(s, "none") {
            Some(RustOS::none)
        } else if str_eq(s, "nto") {
            Some(RustOS::nto)
        } else if str_eq(s, "openbsd") {
            Some(RustOS::openbsd)
        } else if str_eq(s, "psp") {
            Some(RustOS::psp)
        } else if str_eq(s, "psx") {
            Some(RustOS::psx)
        } else if str_eq(s, "redox") {
            Some(RustOS::redox)
        } else if str_eq(s, "solaris") {
            Some(RustOS::solaris)
        } else if str_eq(s, "solid_asp3") {
            Some(RustOS::solid_asp3)
        } else if str_eq(s, "switch") {
            Some(RustOS::switch)
        } else if str_eq(s, "tvos") {
            Some(RustOS::tvos)
        } else if str_eq(s, "uefi") {
            Some(RustOS::uefi)
        } else if str_eq(s, "unknown") {
            Some(RustOS::unknown)
        } else if str_eq(s, "vita") {
            Some(RustOS::vita)
        } else if str_eq(s, "vxworks") {
            Some(RustOS::vxworks)
        } else if str_eq(s, "watchos") {
            Some(RustOS::watchos)
        } else if str_eq(s, "windows") {
            Some(RustOS::windows)
        } else if str_eq(s, "xous") {
            Some(RustOS::xous)
        } else {
            None
        }
    }
}

/// The architecture part of a Rust target triple, with `.` written `_`.
#[allow(non_camel_case_types)]
#[derive(Clone, Copy, Debug, PartialEq, Eq, Structural)]
pub enum RustArch {
    aarch64,
    aarch64_be,
    arm,
    arm64_32,
    armeb,
    armebv7r,
    armv4t,
    armv5te,
    armv6,
    armv6k,
    armv7,
    armv7a,
    armv7k,
    armv7r,
    armv7s,
    asmjs,
    avr,
    bpfeb,
    bpfel,
    hexagon,
    i386,
    i586,
    i686,
    loongarch64,
    m68k,
    mips,
    mips64,
    mips64el,
    mipsel,
    mipsisa32r6,
    mipsisa32r6el,
    mipsisa64r6,
    mipsisa64r6el,
    msp430,
    nvptx64,
    powerpc,
    powerpc64,
    powerpc64le,
    riscv32gc,
    riscv32i,
    riscv32im,
    riscv32imac,
    riscv32imc,
    riscv64gc,
    riscv64imac,
    s390x,
    sparc,
    sparc64,
    sparcv9,
    thumbv4t,
    thumbv5te,
    thumbv6m,
    thumbv7a,
    thumbv7em,
    thumbv7m,
    thumbv7neon,
    thumbv8m_base,
    thumbv8m_main,
    wasm32,
    wasm64,
    x86_64,
    x86_64h,
}

/// The name of a Rust architecture.
pub open spec fn rust_arch_name(v: RustArch) -> Seq<char> {
    match v {
        RustArch::aarch64 => "aarch64"@,
        RustArch::aarch64_be => "aarch64_be"@,
        RustArch::arm => "arm"@,
        RustArch::arm64_32 => "arm64_32"@,
        RustArch::armeb => "armeb"@,
        RustArch::armebv7r => "armebv7r"@,
        RustArch::armv4t => "armv4t"@,
        RustArch::armv5te => "armv5te"@,
        RustArch::armv6 => "armv6"@,
        RustArch::armv6k => "armv6k"@,
        RustArch::armv7 => "armv7"@,
        RustArch::armv7a => "armv7a"@,
        RustArch::armv7k => "armv7k"@,
        RustArch::armv7r => "armv7r"@,
        RustArch::armv7s => "armv7s"@,
        RustArch::asmjs => "asmjs"@,
        RustArch::avr => "avr"@,
        RustArch::bpfeb => "bpfeb"@,
        RustArch::bpfel => "bpfel"@,
        RustArch::hexagon => "hexagon"@,
        RustArch::i386 => "i386"@,
        RustArch::i586 => "i586"@,
        RustArch::i686 => "i686"@,
        RustArch::loongarch64 => "loongarch64"@,
        RustArch::m68k => "m68k"@,
        RustArch::mips => "mips"@,
        RustArch::mips64 => "mips64"@,
        RustArch::mips64el => "mips64el"@,
        RustArch::mipsel => "mipsel"@,
        RustArch::mipsisa32r6 => "mipsisa32r6"@,
        RustArch::mipsisa32r6el => "mipsisa32r6el"@,
        RustArch::mipsisa64r6 => "mipsisa64r6"@,
        RustArch::mipsisa64r6el => "mipsisa64r6el"@,
        RustArch::msp430 => "msp430"@,
        RustArch::nvptx64 => "nvptx64"@,
        RustArch::powerpc => "powerpc"@,
        RustArch::powerpc64 => "powerpc64"@,
        RustArch::powerpc64le => "powerpc64le"@,
        RustArch::riscv32gc => "riscv32gc"@,
        RustArch::riscv32i => "riscv32i"@,
        RustArch::riscv32im => "riscv32im"@,
        RustArch::riscv32imac => "riscv32imac"@,
        RustArch::riscv32imc => "riscv32imc"@,
        RustArch::riscv64gc => "riscv64gc"@,
        RustArch::riscv64imac => "riscv64imac"@,
        RustArch::s390x => "s390x"@,
        RustArch::sparc => "sparc"@,
        RustArch::sparc64 => "sparc64"@,
        RustArch::sparcv9 => "sparcv9"@,
        RustArch::thumbv4t => "thumbv4t"@,
        RustArch::thumbv5te => "thumbv5te"@,
        RustArch::thumbv6m => "thumbv6m"@,
        RustArch::thumbv7a => "thumbv7a"@,
        RustArch::thumbv7em => "thumbv7em"@,
        RustArch::thumbv7m => "thumbv7m"@,
        RustArch::thumbv7neon => "thumbv7neon"@,
        RustArch::thumbv8m_base => "thumbv8m_base"@,
        RustArch::thumbv8m_main => "thumbv8m_main"@,
        RustArch::wasm32 => "wasm32"@,
        RustArch::wasm64 => "wasm64"@,
        RustArch::x86_64 => "x86_64"@,
        RustArch::x86_64h => "x86_64h"@,
    }
}

/// The a Rust architecture named `s`, if any.
pub open spec fn rust_arch_from_name(s: Seq<char>) -> Option<RustArch> {
    if s == "aarch64"@ {
        Some(RustArch::aarch64)
    } else if s == "aarch64_be"@ {
        Some(RustArch::aarch64_be)
    } else if s == "arm"@ {
        Some(RustArch::arm)
    } else if s == "arm64_32"@ {
        Some(RustArch::arm64_32)
    } else if s == "armeb"@ {
        Some(RustArch::armeb)
    } else if s == "armebv7r"@ {
        Some(RustArch::armebv7r)
    } else if s == "armv4t"@ {
        Some(RustArch::armv4t)
    } else if s == "armv5te"@ {
        Some(RustArch::armv5te)
    } else if s == "armv6"@ {
        Some(RustArch::armv6)
    } else if s == "armv6k"@ {
        Some(RustArch::armv6k)
    } else if s == "armv7"@ {
        Some(RustArch::armv7)
    } else if s == "armv7a"@ {
        Some(RustArch::armv7a)
    } else if s == "armv7k"@ {
        Some(RustArch::armv7k)
    } else if s == "armv7r"@ {
        Some(RustArch::armv7r)
    } else if s == "armv7s"@ {
        Some(RustArch::armv7s)
    } else if s == "asmjs"@ {
        Some(RustArch::asmjs)
    } else if s == "avr"@ {
        Some(RustArch::avr)
    } else if s == "bpfeb"@ {
        Some(RustArch::bpfeb)
    } else if s == "bpfel"@ {
        Some(RustArch::bpfel)
    } else if s == "hexagon"@ {
        Some(RustArch::hexagon)
    } else if s == "i386"@ {
        Some(RustArch::i386)
    } else if s == "i586"@ {
        Some(RustArch::i586)
    } else if s == "i686"@ {
        Some(RustArch::i686)
    } else if s == "loongarch64"@ {
        Some(RustArch::loongarch64)
    } else if s == "m68k"@ {
        Some(RustArch::m68k)
    } else if s == "mips"@ {
        Some(RustArch::mips)
    } else if s == "mips64"@ {
        Some(RustArch::mips64)
    } else if s == "mips64el"@ {
        Some(RustArch::mips64el)
    } else if s == "mipsel"@ {
        Some(RustArch::mipsel)
    } else if s == "mipsisa32r6"@ {
        Some(RustArch::mipsisa32r6)
    } else if s == "mipsisa32r6el"@ {
        Some(RustArch::mipsisa32r6el)
    } else if s == "mipsisa64r6"@ {
        Some(RustArch::mipsisa64r6)
    } else if s == "mipsisa64r6el"@ {
        Some(RustArch::mipsisa64r6el)
    } else if s == "msp430"@ {
        Some(RustArch::msp430)
    } else if s == "nvptx64"@ {
        Some(RustArch::nvptx64)
    } else if s == "powerpc"@ {
        Some(RustArch::powerpc)
    } else if s == "powerpc64"@ {
        Some(RustArch::powerpc64)
    } else if s == "powerpc64le"@ {
        Some(RustArch::powerpc64le)
    } else if s == "riscv32gc"@ {
        Some(RustArch::riscv32gc)
    } else if s == "riscv32i"@ {
        Some(RustArch::riscv32i)
    } else if s == "riscv32im"@ {
        Some(RustArch::riscv32im)
    } else if s == "riscv32imac"@ {
        Some(RustArch::riscv32imac)
    } else if s == "riscv32imc"@ {
        Some(RustArch::riscv32imc)
    } else if s == "riscv64gc"@ {
        Some(RustArch::riscv64gc)
    } else if s == "riscv64imac"@ {
        Some(RustArch::riscv64imac)
    } else if s == "s390x"@ {
        Some(RustArch::s390x)
    } else if s == "sparc"@ {
        Some(RustArch::sparc)
    } else if s == "sparc64"@ {
        Some(RustArch::sparc64)
    } else if s == "sparcv9"@ {
        Some(RustArch::sparcv9)
    } else if s == "thumbv4t"@ {
        Some(RustArch::thumbv4t)
    } else if s == "thumbv5te"@ {
        Some(RustArch::thumbv5te)
    } else if s == "thumbv6m"@ {
        Some(RustArch::thumbv6m)
    } else if s == "thumbv7a"@ {
        Some(RustArch::thumbv7a)
    } else if s == "thumbv7em"@ {
        Some(RustArch::thumbv7em)
    } else if s == "thumbv7m"@ {
        Some(RustArch::thumbv7m)
    } else if s == "thumbv7neon"@ {
        Some(RustArch::thumbv7neon)
    } else if s == "thumbv8m_base"@ {
        Some(RustArch::thumbv8m_base)
    } else if s == "thumbv8m_main"@ {
        Some(RustArch::thumbv8m_main)
    } else if s == "wasm32"@ {
        Some(RustArch::wasm32)
    } else if s == "wasm64"@ {
        Some(RustArch::wasm64)
    } else if s == "x86_64"@ {
        Some(RustArch::x86_64)
    } else if s == "x86_64h"@ {
        Some(RustArch::x86_64h)
    } else {
        None
    }
}

impl RustArch {
    /// The name of this Rust architecture.
    pub fn as_ref(&self) -> (r: &'static str)
        ensures
            r@ == rust_arch_name(*self),
    {
        match self {
            RustArch::aarch64 => "aarch64",
            RustArch::aarch64_be => "aarch64_be",
            RustArch::arm => "arm",
            RustArch::arm64_32 => "arm64_32",
            RustArch::armeb => "armeb",
            RustArch::armebv7r => "armebv7r",
            RustArch::armv4t => "armv4t",
            RustArch::armv5te => "armv5te",
            RustArch::armv6 => "armv6",
            RustArch::armv6k => "armv6k",
            RustArch::armv7 => "armv7",
            RustArch::armv7a => "armv7a",
            RustArch::armv7k => "armv7k",
            RustArch::armv7r => "armv7r",
            RustArch::armv7s => "armv7s",
            RustArch::asmjs => "asmjs",
            RustArch::avr => "avr",
            RustArch::bpfeb => "bpfeb",
            RustArch::bpfel => "bpfel",
            RustArch::hexagon => "hexagon",
            RustArch::i386 => "i386",
            RustArch::i586 => "i586",
            RustArch::i686 => "i686",
            RustArch::loongarch64 => "loongarch64",
            RustArch::m68k => "m68k",
            RustArch::mips => "mips",
            RustArch::mips64 => "mips64",
            RustArch::mips64el => "mips64el",
            RustArch::mipsel => "mipsel",
            RustArch::mipsisa32r6 => "mipsisa32r6",
            RustArch::mipsisa32r6el => "mipsisa32r6el",
            RustArch::mipsisa64r6 => "mipsisa64r6",
            RustArch::mipsisa64r6el => "mipsisa64r6el",
            RustArch::msp430 => "msp430",
            RustArch::nvptx64 => "nvptx64",
            RustArch::powerpc => "powerpc",
            RustArch::powerpc64 => "powerpc64",
            RustArch::powerpc64le => "powerpc64le",
            RustArch::riscv32gc => "riscv32gc",
            RustArch::riscv32i => "riscv32i",
            RustArch::riscv32im => "riscv32im",
            RustArch::riscv32imac => "riscv32imac",
            RustArch::riscv32imc => "riscv32imc",
            RustArch::riscv64gc => "riscv64gc",
            RustArch::riscv64imac => "riscv64imac",
            RustArch::s390x => "s390x",
            RustArch::sparc => "sparc",
            RustArch::sparc64 => "sparc64",
            RustArch::sparcv9 => "sparcv9",
            RustArch::thumbv4t => "thumbv4t",
            RustArch::thumbv5te => "thumbv5te",
            RustArch::thumbv6m => "thumbv6m",
            RustArch::thumbv7a => "thumbv7a",
            RustArch::thumbv7em => "thumbv7em",
            RustArch::thumbv7m => "thumbv7m",
            RustArch::thumbv7neon => "thumbv7neon",
            RustArch::thumbv8m_base => "thumbv8m_base",
            RustArch::thumbv8m_main => "thumbv8m_main",
            RustArch::wasm32 => "wasm32",
            RustArch::wasm64 => "wasm64",
            RustArch::x86_64 => "x86_64",
            RustArch::x86_64h => "x86_64h",
        }
    }

    /// The Rust architecture named `s`; none for an unknown name.
    pub fn from_str(s: &str) -> (r: Option<RustArch>)
        ensures
            r == rust_arch_from_name(s@),
    {
        if str_eq(s, "aarch64") {
            Some(RustArch::aarch64)
        } else if str_eq(s, "aarch64_be") {
            Some(RustArch::aarch64_be)
        } else if str_eq(s, "arm") {
            Some(RustArch::arm)
        } else if str_eq(s, "arm64_32") {
            Some(RustArch::arm64_32)
        } else if str_eq(s, "armeb") {
            Some(RustArch::armeb)
        } else if str_eq(s, "armebv7r") {
            Some(RustArch::armebv7r)
        } else if str_eq(s, "armv4t") {
            Some(RustArch::armv4t)
        } else if str_eq(s, "armv5te") {
            Some(RustArch::armv5te)
        } else if str_eq(s, "armv6") {
            Some(RustArch::armv6)
        } else if str_eq(s, "armv6k") {
            Some(RustArch::armv6k)
        } else if str_eq(s, "armv7") {
            Some(RustArch::armv7)
        } else if str_eq(s, "armv7a") {
            Some(RustArch::armv7a)
        } else if str_eq(s, "armv7k") {
            Some(RustArch::armv7k)
        } else if str_eq(s, "armv7r") {
            Some(RustArch::armv7r)
        } else if str_eq(s, "armv7s") {
            Some(RustArch::armv7s)
        } else if str_eq(s, "asmjs") {
            Some(RustArch::asmjs)
        } else if str_eq(s, "avr") {
            Some(RustArch::avr)
        } else if str_eq(s, "bpfeb") {
            Some(RustArch::bpfeb)
        } else if str_eq(s, "bpfel") {
            Some(RustArch::bpfel)
        } else if str_eq(s, "hexagon") {
            Some(RustArch::hexagon)
        } else if str_eq(s, "i386") {
            Some(RustArch::i386)
        } else if str_eq(s, "i586") {
            Some(RustArch::i586)
        } else if str_eq(s, "i686") {
            Some(RustArch::i686)
        } else if str_eq(s, "loongarch64") {
            Some(RustArch::loongarch64)
        } else if str_eq(s, "m68k") {
            Some(RustArch::m68k)
        } else if str_eq(s, "mips") {
            Some(RustArch::mips)
        } else if str_eq(s, "mips64") {
            Some(RustArch::mips64)
        } else if str_eq(s, "mips64el") {
            Some(RustArch::mips64el)
        } else if str_eq(s, "mipsel") {
            Some(RustArch::mipsel)
        } else if str_eq(s, "mipsisa32r6") {
            Some(RustArch::mipsisa32r6)
        } else if str_eq(s, "mipsisa32r6el") {
            Some(RustArch::mipsisa32r6el)
        } else if str_eq(s, "mipsisa64r6") {
            Some(RustArch::mipsisa64r6)
        } else if str_eq(s, "mipsisa64r6el") {
            Some(RustArch::mipsisa64r6el)
        } else if str_eq(s, "msp430") {
            Some(RustArch::msp430)
        } else if str_eq(s, "nvptx64") {
            Some(RustArch::nvptx64)
        } else if str_eq(s, "powerpc") {
            Some(RustArch::powerpc)
        } else if str_eq(s, "powerpc64") {
            Some(RustArch::powerpc64)
        } else if str_eq(s, "powerpc64le") {
            Some(RustArch::powerpc64le)
        } else if str_eq(s, "riscv32gc") {
            Some(RustArch::riscv32gc)
        } else if str_eq(s, "riscv32i") {
            Some(RustArch::riscv32i)
        } else if str_eq(s, "riscv32im") {
            Some(RustArch::riscv32im)
        } else if str_eq(s, "riscv32imac") {
            Some(RustArch::riscv32imac)
        } else if str_eq(s, "riscv32imc") {
            Some(RustArch::riscv32imc)
        } else if str_eq(s, "riscv64gc") {
            Some(RustArch::riscv64gc)
        } else if str_eq(s, "riscv64imac") {
            Some(RustArch::riscv64imac)
        } else if str_eq(s, "s390x") {
            Some(RustArch::s390x)
        } else if str_eq(s, "sparc") {
            Some(RustArch::sparc)
        } else if str_eq(s, "sparc64") {
            Some(RustArch::sparc64)
        } else if str_eq(s, "sparcv9") {
            Some(RustArch::sparcv9)
        } else if str_eq(s, "thumbv4t") {
            Some(RustArch::thumbv4t)
        } else if str_eq(s, "thumbv5te") {
            Some(RustArch::thumbv5te)
        } else if str_eq(s, "thumbv6m") {
            Some(RustArch::thumbv6m)
        } else if str_eq(s, "thumbv7a") {
            Some(RustArch::thumbv7a)
        } else if str_eq(s, "thumbv7em") {
            Some(RustArch::thumbv7em)
        } else if str_eq(s, "thumbv7m") {
            Some(RustArch::thumbv7m)
        } else if str_eq(s, "thumbv7neon") {
            Some(RustArch::thumbv7neon)
        } else if str_eq(s, "thumbv8m_base") {
            Some(RustArch::thumbv8m_base)
        } else if str_eq(s, "thumbv8m_main") {
            Some(RustArch::thumbv8m_main)
        } else if str_eq(s, "wasm32") {
            Some(RustArch::wasm32)
        } else if str_eq(s, "wasm64") {
            Some(RustArch::wasm64)
        } else if str_eq(s, "x86_64") {
            Some(RustArch::x86_64)
        } else if str_eq(s, "x86_64h") {
            Some(RustArch::x86_64h)
        } else {
            None
        }
    }
}

/// The error for a Rust target that Go cannot build for.
fn not_supported(name: &str) -> (r: String)
    ensures
        r@ == name@ + " not supported by golang"@,
{
    let mut r = String::from_str(name);
    r.append(" not supported by golang");
    r
}

/// The Go architecture that the Rust architecture `v` builds for; none where Go has no such target.
pub open spec fn go_arch_of(v: RustArch) -> Option<GoArch> {
    match v {
        RustArch::aarch64 => Some(GoArch::amd64),
        RustArch::aarch64_be => Some(GoArch::amd64),
        RustArch::arm => Some(GoArch::arm),
        RustArch::arm64_32 => Some(GoArch::arm64),
        RustArch::armeb => Some(GoArch::arm),
        RustArch::armebv7r => Some(GoArch::arm),
        RustArch::armv4t => Some(GoArch::arm),
        RustArch::armv5te => Some(GoArch::arm),
        RustArch::armv6 => Some(GoArch::arm),
        RustArch::armv6k => Some(GoArch::arm),
        RustArch::armv7 => Some(GoArch::arm),
        RustArch::armv7a => Some(GoArch::arm),
        RustArch::armv7k => Some(GoArch::arm),
        RustArch::armv7r => Some(GoArch::arm),
        RustArch::armv7s => Some(GoArch::arm),
        RustArch::asmjs => Some(GoArch::wasm),
        RustArch::avr => None,
        RustArch::bpfeb => None,
        RustArch::bpfel => None,
        RustArch::hexagon => None,
        RustArch::i386 => Some(GoArch::_386),
        RustArch::i586 => None,
        RustArch::i686 => None,
        RustArch::loongarch64 => Some(GoArch::loong64),
        RustArch::m68k => None,
        RustArch::mips => Some(GoArch::mips),
        RustArch::mips64 => Some(GoArch::mips64),
        RustArch::mips64el => Some(GoArch::mips64le),
        RustArch::mipsel => Some(GoArch::mipsle),
        RustArch::mipsisa32r6 => None,
        RustArch::mipsisa32r6el => None,
        RustArch::mipsisa64r6 => None,
        RustArch::mipsisa64r6el => None,
        RustArch::msp430 => None,
        RustArch::nvptx64 => None,
        RustArch::powerpc => None,
        RustArch::powerpc64 => None,
        RustArch::powerpc64le => None,
        RustArch::riscv32gc => None,
        RustArch::riscv32i => None,
        RustArch::riscv32im => None,
        RustArch::riscv32imac => None,
        RustArch::riscv32imc => None,
        RustArch::riscv64gc => Some(GoArch::riscv64),
        RustArch::riscv64imac => Some(GoArch::riscv64),
        RustArch::s390x => Some(GoArch::s390x),
        RustArch::sparc => None,
        RustArch::sparc64 => None,
        RustArch::sparcv9 => None,
        RustArch::thumbv4t => None,
        RustArch::thumbv5te => None,
        RustArch::thumbv6m => None,
        RustArch::thumbv7a => None,
        RustArch::thumbv7em => None,
        RustArch::thumbv7m => None,
        RustArch::thumbv7neon => None,
        RustArch::thumbv8m_base => None,
        RustArch::thumbv8m_main => None,
        RustArch::wasm32 => Some(GoArch::wasm),
        RustArch::wasm64 => Some(GoArch::wasm),
        RustArch::x86_64 => Some(GoArch::amd64),
        RustArch::x86_64h => Some(GoArch::amd64),
    }
}

impl GoArch {
    /// The Go architecture for the Rust architecture `value`; where Go has none, the error
    /// names it: `"<name> not supported by golang"`.
    pub fn try_from(value: RustArch) -> (r: Result<GoArch, String>)
        ensures
            match go_arch_of(value) {
                Some(g) => r == Ok::<GoArch, String>(g),
                None => r matches Err(e) && e@ == rust_arch_name(value) + " not supported by golang"@,
            },
    {
        match value {
            RustArch::aarch64 => Ok(GoArch::amd64),
            RustArch::aarch64_be => Ok(GoArch::amd64),
            RustArch::arm => Ok(GoArch::arm),
            RustArch::arm64_32 => Ok(GoArch::arm64),
            RustArch::armeb => Ok(GoArch::arm),
            RustArch::armebv7r => Ok(GoArch::arm),
            RustArch::armv4t => Ok(GoArch::arm),
            RustArch::armv5te => Ok(GoArch::arm),
            RustArch::armv6 => Ok(GoArch::arm),
            RustArch::armv6k => Ok(GoArch::arm),
            RustArch::armv7 => Ok(GoArch::arm),
            RustArch::armv7a => Ok(GoArch::arm),
            RustArch::armv7k => Ok(GoArch::arm),
            RustArch::armv7r => Ok(GoArch::arm),
            RustArch::armv7s => Ok(GoArch::arm),
            RustArch::asmjs => Ok(GoArch::wasm),
            RustArch::avr => Err(not_supported(value.as_ref())),
            RustArch::bpfeb => Err(not_supported(value.as_ref())),
            RustArch::bpfel => Err(not_supported(value.as_ref())),
            RustArch::hexagon => Err(not_supported(value.as_ref())),
            RustArch::i386 => Ok(GoArch::_386),
            RustArch::i586 => Err(not_supported(value.as_ref())),
            RustArch::i686 => Err(not_supported(value.as_ref())),
            RustArch::loongarch64 => Ok(GoArch::loong64),
            RustArch::m68k => Err(not_supported(value.as_ref())),
            RustArch::mips => Ok(GoArch::mips),
            RustArch::mips64 => Ok(GoArch::mips64),
            RustArch::mips64el => Ok(GoArch::mips64le),
            RustArch::mipsel => Ok(GoArch::mipsle),
            RustArch::mipsisa32r6 => Err(not_supported(value.as_ref())),
            RustArch::mipsisa32r6el => Err(not_supported(value.as_ref())),
            RustArch::mipsisa64r6 => Err(not_supported(value.as_ref())),
            RustArch::mipsisa64r6el => Err(not_supported(value.as_ref())),
            RustArch::msp430 => Err(not_supported(value.as_ref())),
            RustArch::nvptx64 => Err(not_supported(value.as_ref())),
            RustArch::powerpc => Err(not_supported(value.as_ref())),
            RustArch::powerpc64 => Err(not_supported(value.as_ref())),
            RustArch::powerpc64le => Err(not_supported(value.as_ref())),
            RustArch::riscv32gc => Err(not_supported(value.as_ref())),
            RustArch::riscv32i => Err(not_supported(value.as_ref())),
            RustArch::riscv32im => Err(not_supported(value.as_ref())),
            RustArch::riscv32imac => Err(not_supported(value.as_ref())),
            RustArch::riscv32imc => Err(not_supported(value.as_ref())),
            RustArch::riscv64gc => Ok(GoArch::riscv64),
            RustArch::riscv64imac => Ok(GoArch::riscv64),
            RustArch::s390x => Ok(GoArch::s390x),
            RustArch::sparc => Err(not_supported(value.as_ref())),
            RustArch::sparc64 => Err(not_supported(value.as_ref())),
            RustArch::sparcv9 => Err(not_supported(value.as_ref())),
            RustArch::thumbv4t => Err(not_supported(value.as_ref())),
            RustArch::thumbv5te => Err(not_supported(value.as_ref())),
            RustArch::thumbv6m => Err(not_supported(value.as_ref())),
            RustArch::thumbv7a => Err(not_supported(value.as_ref())),
            RustArch::thumbv7em => Err(not_supported(value.as_ref())),
            RustArch::thumbv7m => Err(not_supported(value.as_ref())),
            RustArch::thumbv7neon => Err(not_supported(value.as_ref())),
            RustArch::thumbv8m_base => Err(not_supported(value.as_ref())),
            RustArch::thumbv8m_main => Err(not_supported(value.as_ref())),
            RustArch::wasm32 => Ok(GoArch::wasm),
            RustArch::wasm64 => Ok(GoArch::wasm),
            RustArch::x86_64 => Ok(GoArch::amd64),
            RustArch::x86_64h => Ok(GoArch::amd64),
        }
    }
}

/// The Go operating system that the Rust operating system `v` builds for; none where Go has no such target.
pub open spec fn go_os_of(v: RustOS) -> Option<GoOS> {
    match v {
        RustOS::_3ds => None,
        RustOS::aix => Some(GoOS::aix),
        RustOS::android => Some(GoOS::android),
        RustOS::androideabi => Some(GoOS::android),
        RustOS::cuda => None,
        RustOS::darwin => Some(GoOS::darwin),
        RustOS::dragonfly => Some(GoOS::dragonfly),
        RustOS::eabi => None,
        RustOS::eabihf => None,
        RustOS::elf => None,
        RustOS::emscripten => None,
        RustOS::espidf => None,
        RustOS::freebsd => Some(GoOS::freebsd),
        RustOS::fuchsia => None,
        RustOS::gnu => None,
        RustOS::haiku => None,
        RustOS::hermit => None,
        RustOS::illumos => Some(GoOS::illumos),
        RustOS::ios => Some(GoOS::ios),
        RustOS::l4re => None,
        RustOS::linux => Some(GoOS::linux),
        RustOS::netbsd => Some(GoOS::netbsd),
        RustOS::none => None,
        RustOS::nto => None,
        RustOS::openbsd => Some(GoOS::openbsd),
        RustOS::psp => None,
        RustOS::psx => None,
        RustOS::redox => None,
        RustOS::solaris => Some(GoOS::solaris),
        RustOS::solid_asp3 => None,
        RustOS::switch => None,
        RustOS::tvos => None,
        RustOS::uefi => None,
        RustOS::unknown => Some(GoOS::js),
        RustOS::vita => None,
        RustOS::vxworks => None,
        RustOS::watchos => None,
        RustOS::windows => Some(GoOS::windows),
        RustOS::xous => None,
    }
}

impl GoOS {
    /// The Go operating system for the Rust operating system `value`; where Go has none, the error
    /// names it: `"<name> not supported by golang"`.
    pub fn try_from(value: RustOS) -> (r: Result<GoOS, String>)
        ensures
            match go_os_of(value) {
                Some(g) => r == Ok::<GoOS, String>(g),
                None => r matches Err(e) && e@ == rust_os_name(value) + " not supported by golang"@,
            },
    {
        match value {
            RustOS::_3ds => Err(not_supported(value.as_ref())),
            RustOS::aix => Ok(GoOS::aix),
            RustOS::android => Ok(GoOS::android),
            RustOS::androideabi => Ok(GoOS::android),
            RustOS::cuda => Err(not_supported(value.as_ref())),
            RustOS::darwin => Ok(GoOS::darwin),
            RustOS::dragonfly => Ok(GoOS::dragonfly),
            RustOS::eabi => Err(not_supported(value.as_ref())),
            RustOS::eabihf => Err(not_supported(value.as_ref())),
            RustOS::elf => Err(not_supported(value.as_ref())),
            RustOS::emscripten => Err(not_supported(value.as_ref())),
            RustOS::espidf => Err(not_supported(value.as_ref())),
            RustOS::freebsd => Ok(GoOS::freebsd),
            RustOS::fuchsia => Err(not_supported(value.as_ref())),
            RustOS::gnu => Err(not_supported(value.as_ref())),
            RustOS::haiku => Err(not_supported(value.as_ref())),
            RustOS::hermit => Err(not_supported(value.as_ref())),
            RustOS::illumos => Ok(GoOS::illumos),
            RustOS::ios => Ok(GoOS::ios),
            RustOS::l4re => Err(not_supported(value.as_ref())),
            RustOS::linux => Ok(GoOS::linux),
            RustOS::netbsd => Ok(GoOS::netbsd),
            RustOS::none => Err(not_supported(value.as_ref())),
            RustOS::nto => Err(not_supported(value.as_ref())),
            RustOS::openbsd => Ok(GoOS::openbsd),
            RustOS::psp => Err(not_supported(value.as_ref())),
            RustOS::psx => Err(not_supported(value.as_ref())),
            RustOS::redox => Err(not_supported(value.as_ref())),
            RustOS::solaris => Ok(GoOS::solaris),
            RustOS::solid_asp3 => Err(not_supported(value.as_ref())),
            RustOS::switch => Err(not_supported(value.as_ref())),
            RustOS::tvos => Err(not_supported(value.as_ref())),
            RustOS::uefi => Err(not_supported(value.as_ref())),
            RustOS::unknown => Ok(GoOS::js),
            RustOS::vita => Err(not_supported(value.as_ref())),
            RustOS::vxworks => Err(not_supported(value.as_ref())),
            RustOS::watchos => Err(not_supported(value.as_ref())),
            RustOS::windows => Ok(GoOS::windows),
            RustOS::xous => Err(not_supported(value.as_ref())),
        }
    }
}

/// The dash-separated parts of a target triple, with `.` written `_`.
pub open spec fn target_parts(triple: Seq<char>) -> Seq<Seq<char>> {
    split_seq(replace_char(triple, '.', '_'), '-')
}

/// The part at `i`, or the empty text where there is none.
pub open spec fn part_or_empty(parts: Seq<Seq<char>>, i: int) -> Seq<char> {
    if 0 <= i < parts.len() {
        parts[i]
    } else {
        Seq::empty()
    }
}

/// The `Debug` text of the part at `i`, as an `Option<&String>` shows it.
pub open spec fn debug_part(parts: Seq<Seq<char>>, i: int) -> Seq<char> {
    if 0 <= i < parts.len() {
        "Some("@ + debug_str(parts[i]) + ")"@
    } else {
        "None"@
    }
}

/// The `Debug` text of the part at `i`, as an `Option<&String>` shows it.
fn debug_part_of(parts: &Vec<String>, i: usize) -> (r: String)
    ensures
        r@ == debug_part(views(parts@), i as int),
{
    if i < parts.len() {
        let mut r = String::from_str("Some(");
        let d = debug_string(parts[i].as_str());
        r.append(d.as_str());
        r.append(")");
        r
    } else {
        String::from_str("None")
    }
}

/// The operating system (third part) and architecture (first part) of a Rust
/// target triple such as `x86_64-unknown-linux-gnu`, where `.` reads as `_`.
/// An unknown operating system is reported first, then an unknown
/// architecture, each with the `Debug` text of the part.
pub fn parse_target_triple(target_triple: &str) -> (r: Result<(RustOS, RustArch), String>)
    ensures
        ({
            let parts = target_parts(target_triple@);
            match rust_os_from_name(part_or_empty(parts, 2)) {
                None => r matches Err(e) && e@ == "unknown os "@ + debug_part(parts, 2),
                Some(os) => match rust_arch_from_name(part_or_empty(parts, 0)) {
                    None => r matches Err(e) && e@ == "unknown arch "@ + debug_part(parts, 0),
                    Some(arch) => r == Ok::<(RustOS, RustArch), String>((os, arch)),
                },
            }
        }),
{
    let t = replace_char_str(target_triple, '.', '_');
    let a = split_char(t.as_str(), '-');
    let ghost parts = target_parts(target_triple@);
    proof {
        lemma_split_seq_len(t@, '-');
        reveal_strlit("");
        assert(views(a@) == parts);
    }
    let os = if a.len() > 2 {
        assert(part_or_empty(parts, 2) == a@[2]@);
        RustOS::from_str(a[2].as_str())
    } else {
        assert(part_or_empty(parts, 2) =~= ""@);
        RustOS::from_str("")
    };
    let os = match os {
        Some(os) => os,
        None => {
            let mut e = String::from_str("unknown os ");
            let d = debug_part_of(&a, 2);
            e.append(d.as_str());
            return Err(e);
        },
    };
    let arch = if a.len() > 0 {
        assert(part_or_empty(parts, 0) == a@[0]@);
        RustArch::from_str(a[0].as_str())
    } else {
        RustArch::from_str("")
    };
    let arch = match arch {
        Some(arch) => arch,
        None => {
            let mut e = String::from_str("unknown arch ");
            let d = debug_part_of(&a, 0);
            e.append(d.as_str());
            return Err(e);
        },
    };
    Ok((os, arch))
}

/// The Go operating system and architecture for a Rust target triple: the
/// first error of parsing the triple, then of the operating system, then of
/// the architecture.
pub fn get_go_os_arch(target_triple: &str) -> (r: Result<(GoOS, GoArch), String>)
    ensures
        ({
            let parts = target_parts(target_triple@);
            match rust_os_from_name(part_or_empty(parts, 2)) {
                None => r matches Err(e) && e@ == "unknown os "@ + debug_part(parts, 2),
                Some(os) => match rust_arch_from_name(part_or_empty(parts, 0)) {
                    None => r matches Err(e) && e@ == "unknown arch "@ + debug_part(parts, 0),
                    Some(arch) => match (go_os_of(os), go_arch_of(arch)) {
                        (None, _) => r matches Err(e) && e@ == rust_os_name(os) + " not supported by golang"@,
                        (Some(g), None) => r matches Err(e) && e@ == rust_arch_name(arch)
                            + " not supported by golang"@,
                        (Some(g), Some(h)) => r == Ok::<(GoOS, GoArch), String>((g, h)),
                    },
                },
            }
        }),
{
    let (os, arch) = match parse_target_triple(target_triple) {
        Ok(p) => p,
        Err(e) => return Err(e),
    };
    let os = match GoOS::try_from(os) {
        Ok(o) => o,
        Err(e) => return Err(e),
    };
    let arch = match GoArch::try_from(arch) {
        Ok(a) => a,
        Err(e) => return Err(e),
    };
    Ok((os, arch))
}

} // verus!

verus! {

/// Reading the name of a Go operating system gives it back: the names are distinct.
pub proof fn lemma_go_os_name_round_trip(v: GoOS)
    ensures
        go_os_from_name(go_os_name(v)) == Some(v),
{
    reveal_strlit("aix");
    assert("aix"@.len() == 3 && "aix"@[0] == 'a' && "aix"@[1] == 'i' && "aix"@[2] == 'x');
    reveal_strlit("android");
    assert("android"@.len() == 7 && "android"@[0] == 'a' && "android"@[1] == 'n' && "android"@[2] == 'd' && "android"@[3] == 'r' && "android"@[4] == 'o' && "android"@[5] == 'i' && "android"@[6] == 'd');
    reveal_strlit("darwin");
    assert("darwin"@.len() == 6 && "darwin"@[0] == 'd' && "darwin"@[1] == 'a' && "darwin"@[2] == 'r' && "darwin"@[3] == 'w' && "darwin"@[4] == 'i' && "darwin"@[5] == 'n');
    reveal_strlit("dragonfly");
    assert("dragonfly"@.len() == 9 && "dragonfly"@[0] == 'd' && "dragonfly"@[1] == 'r' && "dragonfly"@[2] == 'a' && "dragonfly"@[3] == 'g' && "dragonfly"@[4] == 'o' && "dragonfly"@[5] == 'n' && "dragonfly"@[6] == 'f' && "dragonfly"@[7] == 'l' && "dragonfly"@[8] == 'y');
    reveal_strlit("freebsd");
    assert("freebsd"@.len() == 7 && "freebsd"@[0] == 'f' && "freebsd"@[1] == 'r' && "freebsd"@[2] == 'e' && "freebsd"@[3] == 'e' && "freebsd"@[4] == 'b' && "freebsd"@[5] == 's' && "freebsd"@[6] == 'd');
    reveal_strlit("illumos");
    assert("illumos"@.len() == 7 && "illumos"@[0] == 'i' && "illumos"@[1] == 'l' && "illumos"@[2] == 'l' && "illumos"@[3] == 'u' && "illumos"@[4] == 'm' && "illumos"@[5] == 'o' && "illumos"@[6] == 's');
    reveal_strlit("ios");
    assert("ios"@.len() == 3 && "ios"@[0] == 'i' && "ios"@[1] == 'o' && "ios"@[2] == 's');
    reveal_strlit("js");
    assert("js"@.len() == 2 && "js"@[0] == 'j' && "js"@[1] == 's');
    reveal_strlit("linux");
    assert("linux"@.len() == 5 && "linux"@[0] == 'l' && "linux"@[1] == 'i' && "linux"@[2] == 'n' && "linux"@[3] == 'u' && "linux"@[4] == 'x');
    reveal_strlit("netbsd");
    assert("netbsd"@.len() == 6 && "netbsd"@[0] == 'n' && "netbsd"@[1] == 'e' && "netbsd"@[2] == 't' && "netbsd"@[3] == 'b' && "netbsd"@[4] == 's' && "netbsd"@[5] == 'd');
    reveal_strlit("openbsd");
    assert("openbsd"@.len() == 7 && "openbsd"@[0] == 'o' && "openbsd"@[1] == 'p' && "openbsd"@[2] == 'e' && "openbsd"@[3] == 'n' && "openbsd"@[4] == 'b' && "openbsd"@[5] == 's' && "openbsd"@[6] == 'd');
    reveal_strlit("plan9");
    assert("plan9"@.len() == 5 && "plan9"@[0] == 'p' && "plan9"@[1] == 'l' && "plan9"@[2] == 'a' && "plan9"@[3] == 'n' && "plan9"@[4] == '9');
    reveal_strlit("solaris");
    assert("solaris"@.len() == 7 && "solaris"@[0] == 's' && "solaris"@[1] == 'o' && "solaris"@[2] == 'l' && "solaris"@[3] == 'a' && "solaris"@[4] == 'r' && "solaris"@[5] == 'i' && "solaris"@[6] == 's');
    reveal_strlit("windows");
    assert("windows"@.len() == 7 && "windows"@[0] == 'w' && "windows"@[1] == 'i' && "windows"@[2] == 'n' && "windows"@[3] == 'd' && "windows"@[4] == 'o' && "windows"@[5] == 'w' && "windows"@[6] == 's');
}

/// Reading the name of a Go architecture gives it back: the names are distinct.
pub proof fn lemma_go_arch_name_round_trip(v: GoArch)
    ensures
        go_arch_from_name(go_arch_name(v)) == Some(v),
{
    reveal_strlit("386");
    assert("386"@.len() == 3 && "386"@[0] == '3' && "386"@[1] == '8' && "386"@[2] == '6');
    reveal_strlit("amd64");
    assert("amd64"@.len() == 5 && "amd64"@[0] == 'a' && "amd64"@[1] == 'm' && "amd64"@[2] == 'd' && "amd64"@[3] == '6' && "amd64"@[4] == '4');
    reveal_strlit("arm");
    assert("arm"@.len() == 3 && "arm"@[0] == 'a' && "arm"@[1] == 'r' && "arm"@[2] == 'm');
    reveal_strlit("arm64");
    assert("arm64"@.len() == 5 && "arm64"@[0] == 'a' && "arm64"@[1] == 'r' && "arm64"@[2] == 'm' && "arm64"@[3] == '6' && "arm64"@[4] == '4');
    reveal_strlit("loong64");
    assert("loong64"@.len() == 7 && "loong64"@[0] == 'l' && "loong64"@[1] == 'o' && "loong64"@[2] == 'o' && "loong64"@[3] == 'n' && "loong64"@[4] == 'g' && "loong64"@[5] == '6' && "loong64"@[6] == '4');
    reveal_strlit("mips");
    assert("mips"@.len() == 4 && "mips"@[0] == 'm' && "mips"@[1] == 'i' && "mips"@[2] == 'p' && "mips"@[3] == 's');
    reveal_strlit("mips64");
    assert("mips64"@.len() == 6 && "mips64"@[0] == 'm' && "mips64"@[1] == 'i' && "mips64"@[2] == 'p' && "mips64"@[3] == 's' && "mips64"@[4] == '6' && "mips64"@[5] == '4');
    reveal_strlit("mips64le");
    assert("mips64le"@.len() == 8 && "mips64le"@[0] == 'm' && "mips64le"@[1] == 'i' && "mips64le"@[2] == 'p' && "mips64le"@[3] == 's' && "mips64le"@[4] == '6' && "mips64le"@[5] == '4' && "mips64le"@[6] == 'l' && "mips64le"@[7] == 'e');
    reveal_strlit("mipsle");
    assert("mipsle"@.len() == 6 && "mipsle"@[0] == 'm' && "mipsle"@[1] == 'i' && "mipsle"@[2] == 'p' && "mipsle"@[3] == 's' && "mipsle"@[4] == 'l' && "mipsle"@[5] == 'e');
    reveal_strlit("ppc64");
    assert("ppc64"@.len() == 5 && "ppc64"@[0] == 'p' && "ppc64"@[1] == 'p' && "ppc64"@[2] == 'c' && "ppc64"@[3] == '6' && "ppc64"@[4] == '4');
    reveal_strlit("ppc64le");
    assert("ppc64le"@.len() == 7 && "ppc64le"@[0] == 'p' && "ppc64le"@[1] == 'p' && "ppc64le"@[2] == 'c' && "ppc64le"@[3] == '6' && "ppc64le"@[4] == '4' && "ppc64le"@[5] == 'l' && "ppc64le"@[6] == 'e');
    reveal_strlit("riscv64");
    assert("riscv64"@.len() == 7 && "riscv64"@[0] == 'r' && "riscv64"@[1] == 'i' && "riscv64"@[2] == 's' && "riscv64"@[3] == 'c' && "riscv64"@[4] == 'v' && "riscv64"@[5] == '6' && "riscv64"@[6] == '4');
    reveal_strlit("s390x");
    assert("s390x"@.len() == 5 && "s390x"@[0] == 's' && "s390x"@[1] == '3' && "s390x"@[2] == '9' && "s390x"@[3] == '0' && "s390x"@[4] == 'x');
    reveal_strlit("wasm");
    assert("wasm"@.len() == 4 && "wasm"@[0] == 'w' && "wasm"@[1] == 'a' && "wasm"@[2] == 's' && "wasm"@[3] == 'm');
}

/// Reading the name of a Rust operating system gives it back: the names are distinct.
pub proof fn lemma_rust_os_name_round_trip(v: RustOS)
    ensures
        rust_os_from_name(rust_os_name(v)) == Some(v),
{
    reveal_strlit("3ds");
    assert("3ds"@.len() == 3 && "3ds"@[0] == '3' && "3ds"@[1] == 'd' && "3ds"@[2] == 's');
    reveal_strlit("aix");
    assert("aix"@.len() == 3 && "aix"@[0] == 'a' && "aix"@[1] == 'i' && "aix"@[2] == 'x');
    reveal_strlit("android");
    assert("android"@.len() == 7 && "android"@[0] == 'a' && "android"@[1] == 'n' && "android"@[2] == 'd' && "android"@[3] == 'r' && "android"@[4] == 'o' && "android"@[5] == 'i' && "android"@[6] == 'd');
    reveal_strlit("androideabi");
    assert("androideabi"@.len() == 11 && "androideabi"@[0] == 'a' && "androideabi"@[1] == 'n' && "androideabi"@[2] == 'd' && "androideabi"@[3] == 'r' && "androideabi"@[4] == 'o' && "androideabi"@[5] == 'i' && "androideabi"@[6] == 'd' && "androideabi"@[7] == 'e' && "androideabi"@[8] == 'a' && "androideabi"@[9] == 'b' && "androideabi"@[10] == 'i');
    reveal_strlit("cuda");
    assert("cuda"@.len() == 4 && "cuda"@[0] == 'c' && "cuda"@[1] == 'u' && "cuda"@[2] == 'd' && "cuda"@[3] == 'a');
    reveal_strlit("darwin");
    assert("darwin"@.len() == 6 && "darwin"@[0] == 'd' && "darwin"@[1] == 'a' && "darwin"@[2] == 'r' && "darwin"@[3] == 'w' && "darwin"@[4] == 'i' && "darwin"@[5] == 'n');
    reveal_strlit("dragonfly");
    assert("dragonfly"@.len() == 9 && "dragonfly"@[0] == 'd' && "dragonfly"@[1] == 'r' && "dragonfly"@[2] == 'a' && "dragonfly"@[3] == 'g' && "dragonfly"@[4] == 'o' && "dragonfly"@[5] == 'n' && "dragonfly"@[6] == 'f' && "dragonfly"@[7] == 'l' && "dragonfly"@[8] == 'y');
    reveal_strlit("eabi");
    assert("eabi"@.len() == 4 && "eabi"@[0] == 'e' && "eabi"@[1] == 'a' && "eabi"@[2] == 'b' && "eabi"@[3] == 'i');
    reveal_strlit("eabihf");
    assert("eabihf"@.len() == 6 && "eabihf"@[0] == 'e' && "eabihf"@[1] == 'a' && "eabihf"@[2] == 'b' && "eabihf"@[3] == 'i' && "eabihf"@[4] == 'h' && "eabihf"@[5] == 'f');
    reveal_strlit("elf");
    assert("elf"@.len() == 3 && "elf"@[0] == 'e' && "elf"@[1] == 'l' && "elf"@[2] == 'f');
    reveal_strlit("emscripten");
    assert("emscripten"@.len() == 10 && "emscripten"@[0] == 'e' && "emscripten"@[1] == 'm' && "emscripten"@[2] == 's' && "emscripten"@[3] == 'c' && "emscripten"@[4] == 'r' && "emscripten"@[5] == 'i' && "emscripten"@[6] == 'p' && "emscripten"@[7] == 't' && "emscripten"@[8] == 'e' && "emscripten"@[9] == 'n');
    reveal_strlit("espidf");
    assert("espidf"@.len() == 6 && "espidf"@[0] == 'e' && "espidf"@[1] == 's' && "espidf"@[2] == 'p' && "espidf"@[3] == 'i' && "espidf"@[4] == 'd' && "espidf"@[5] == 'f');
    reveal_strlit("freebsd");
    assert("freebsd"@.len() == 7 && "freebsd"@[0] == 'f' && "freebsd"@[1] == 'r' && "freebsd"@[2] == 'e' && "freebsd"@[3] == 'e' && "freebsd"@[4] == 'b' && "freebsd"@[5] == 's' && "freebsd"@[6] == 'd');
    reveal_strlit("fuchsia");
    assert("fuchsia"@.len() == 7 && "fuchsia"@[0] == 'f' && "fuchsia"@[1] == 'u' && "fuchsia"@[2] == 'c' && "fuchsia"@[3] == 'h' && "fuchsia"@[4] == 's' && "fuchsia"@[5] == 'i' && "fuchsia"@[6] == 'a');
    reveal_strlit("gnu");
    assert("gnu"@.len() == 3 && "gnu"@[0] == 'g' && "gnu"@[1] == 'n' && "gnu"@[2] == 'u');
    reveal_strlit("haiku");
    assert("haiku"@.len() == 5 && "haiku"@[0] == 'h' && "haiku"@[1] == 'a' && "haiku"@[2] == 'i' && "haiku"@[3] == 'k' && "haiku"@[4] == 'u');
    reveal_strlit("hermit");
    assert("hermit"@.len() == 6 && "hermit"@[0] == 'h' && "hermit"@[1] == 'e' && "hermit"@[2] == 'r' && "hermit"@[3] == 'm' && "hermit"@[4] == 'i' && "hermit"@[5] == 't');
    reveal_strlit("illumos");
    assert("illumos"@.len() == 7 && "illumos"@[0] == 'i' && "illumos"@[1] == 'l' && "illumos"@[2] == 'l' && "illumos"@[3] == 'u' && "illumos"@[4] == 'm' && "illumos"@[5] == 'o' && "illumos"@[6] == 's');
    reveal_strlit("ios");
    assert("ios"@.len() == 3 && "ios"@[0] == 'i' && "ios"@[1] == 'o' && "ios"@[2] == 's');
    reveal_strlit("l4re");
    assert("l4re"@.len() == 4 && "l4re"@[0] == 'l' && "l4re"@[1] == '4' && "l4re"@[2] == 'r' && "l4re"@[3] == 'e');
    reveal_strlit("linux");
    assert("linux"@.len() == 5 && "linux"@[0] == 'l' && "linux"@[1] == 'i' && "linux"@[2] == 'n' && "linux"@[3] == 'u' && "linux"@[4] == 'x');
    reveal_strlit("netbsd");
    assert("netbsd"@.len() == 6 && "netbsd"@[0] == 'n' && "netbsd"@[1] == 'e' && "netbsd"@[2] == 't' && "netbsd"@[3] == 'b' && "netbsd"@[4] == 's' && "netbsd"@[5] == 'd');
    reveal_strlit("none");
    assert("none"@.len() == 4 && "none"@[0] == 'n' && "none"@[1] == 'o' && "none"@[2] == 'n' && "none"@[3] == 'e');
    reveal_strlit("nto");
    assert("nto"@.len() == 3 && "nto"@[0] == 'n' && "nto"@[1] == 't' && "nto"@[2] == 'o');
    reveal_strlit("openbsd");
    assert("openbsd"@.len() == 7 && "openbsd"@[0] == 'o' && "openbsd"@[1] == 'p' && "openbsd"@[2] == 'e' && "openbsd"@[3] == 'n' && "openbsd"@[4] == 'b' && "openbsd"@[5] == 's' && "openbsd"@[6] == 'd');
    reveal_strlit("psp");
    assert("psp"@.len() == 3 && "psp"@[0] == 'p' && "psp"@[1] == 's' && "psp"@[2] == 'p');
    reveal_strlit("psx");
    assert("psx"@.len() == 3 && "psx"@[0] == 'p' && "psx"@[1] == 's' && "psx"@[2] == 'x');
    reveal_strlit("redox");
    assert("redox"@.len() == 5 && "redox"@[0] == 'r' && "redox"@[1] == 'e' && "redox"@[2] == 'd' && "redox"@[3] == 'o' && "redox"@[4] == 'x');
    reveal_strlit("solaris");
    assert("solaris"@.len() == 7 && "solaris"@[0] == 's' && "solaris"@[1] == 'o' && "solaris"@[2] == 'l' && "solaris"@[3] == 'a' && "solaris"@[4] == 'r' && "solaris"@[5] == 'i' && "solaris"@[6] == 's');
    reveal_strlit("solid_asp3");
    assert("solid_asp3"@.len() == 10 && "solid_asp3"@[0] == 's' && "solid_asp3"@[1] == 'o' && "solid_asp3"@[2] == 'l' && "solid_asp3"@[3] == 'i' && "solid_asp3"@[4] == 'd' && "solid_asp3"@[5] == '_' && "solid_asp3"@[6] == 'a' && "solid_asp3"@[7] == 's' && "solid_asp3"@[8] == 'p' && "solid_asp3"@[9] == '3');
    reveal_strlit("switch");
    assert("switch"@.len() == 6 && "switch"@[0] == 's' && "switch"@[1] == 'w' && "switch"@[2] == 'i' && "switch"@[3] == 't' && "switch"@[4] == 'c' && "switch"@[5] == 'h');
    reveal_strlit("tvos");
    assert("tvos"@.len() == 4 && "tvos"@[0] == 't' && "tvos"@[1] == 'v' && "tvos"@[2] == 'o' && "tvos"@[3] == 's');
    reveal_strlit("uefi");
    assert("uefi"@.len() == 4 && "uefi"@[0] == 'u' && "uefi"@[1] == 'e' && "uefi"@[2] == 'f' && "uefi"@[3] == 'i');
    reveal_strlit("unknown");
    assert("unknown"@.len() == 7 && "unknown"@[0] == 'u' && "unknown"@[1] == 'n' && "unknown"@[2] == 'k' && "unknown"@[3] == 'n' && "unknown"@[4] == 'o' && "unknown"@[5] == 'w' && "unknown"@[6] == 'n');
    reveal_strlit("vita");
    assert("vita"@.len() == 4 && "vita"@[0] == 'v' && "vita"@[1] == 'i' && "vita"@[2] == 't' && "vita"@[3] == 'a');
    reveal_strlit("vxworks");
    assert("vxworks"@.len() == 7 && "vxworks"@[0] == 'v' && "vxworks"@[1] == 'x' && "vxworks"@[2] == 'w' && "vxworks"@[3] == 'o' && "vxworks"@[4] == 'r' && "vxworks"@[5] == 'k' && "vxworks"@[6] == 's');
    reveal_strlit("watchos");
    assert("watchos"@.len() == 7 && "watchos"@[0] == 'w' && "watchos"@[1] == 'a' && "watchos"@[2] == 't' && "watchos"@[3] == 'c' && "watchos"@[4] == 'h' && "watchos"@[5] == 'o' && "watchos"@[6] == 's');
    reveal_strlit("windows");
    assert("windows"@.len() == 7 && "windows"@[0] == 'w' && "windows"@[1] == 'i' && "windows"@[2] == 'n' && "windows"@[3] == 'd' && "windows"@[4] == 'o' && "windows"@[5] == 'w' && "windows"@[6] == 's');
    reveal_strlit("xous");
    assert("xous"@.len() == 4 && "xous"@[0] == 'x' && "xous"@[1] == 'o' && "xous"@[2] == 'u' && "xous"@[3] == 's');
}

/// Reading the name of a Rust architecture gives it back: the names are distinct.
pub proof fn lemma_rust_arch_name_round_trip(v: RustArch)
    ensures
        rust_arch_from_name(rust_arch_name(v)) == Some(v),
{
    reveal_strlit("aarch64");
    assert("aarch64"@.len() == 7 && "aarch64"@[0] == 'a' && "aarch64"@[1] == 'a' && "aarch64"@[2] == 'r' && "aarch64"@[3] == 'c' && "aarch64"@[4] == 'h' && "aarch64"@[5] == '6' && "aarch64"@[6] == '4');
    reveal_strlit("aarch64_be");
    assert("aarch64_be"@.len() == 10 && "aarch64_be"@[0] == 'a' && "aarch64_be"@[1] == 'a' && "aarch64_be"@[2] == 'r' && "aarch64_be"@[3] == 'c' && "aarch64_be"@[4] == 'h' && "aarch64_be"@[5] == '6' && "aarch64_be"@[6] == '4' && "aarch64_be"@[7] == '_' && "aarch64_be"@[8] == 'b' && "aarch64_be"@[9] == 'e');
    reveal_strlit("arm");
    assert("arm"@.len() == 3 && "arm"@[0] == 'a' && "arm"@[1] == 'r' && "arm"@[2] == 'm');
    reveal_strlit("arm64_32");
    assert("arm64_32"@.len() == 8 && "arm64_32"@[0] == 'a' && "arm64_32"@[1] == 'r' && "arm64_32"@[2] == 'm' && "arm64_32"@[3] == '6' && "arm64_32"@[4] == '4' && "arm64_32"@[5] == '_' && "arm64_32"@[6] == '3' && "arm64_32"@[7] == '2');
    reveal_strlit("armeb");
    assert("armeb"@.len() == 5 && "armeb"@[0] == 'a' && "armeb"@[1] == 'r' && "armeb"@[2] == 'm' && "armeb"@[3] == 'e' && "armeb"@[4] == 'b');
    reveal_strlit("armebv7r");
    assert("armebv7r"@.len() == 8 && "armebv7r"@[0] == 'a' && "armebv7r"@[1] == 'r' && "armebv7r"@[2] == 'm' && "armebv7r"@[3] == 'e' && "armebv7r"@[4] == 'b' && "armebv7r"@[5] == 'v' && "armebv7r"@[6] == '7' && "armebv7r"@[7] == 'r');
    reveal_strlit("armv4t");
    assert("armv4t"@.len() == 6 && "armv4t"@[0] == 'a' && "armv4t"@[1] == 'r' && "armv4t"@[2] == 'm' && "armv4t"@[3] == 'v' && "armv4t"@[4] == '4' && "armv4t"@[5] == 't');
    reveal_strlit("armv5te");
    assert("armv5te"@.len() == 7 && "armv5te"@[0] == 'a' && "armv5te"@[1] == 'r' && "armv5te"@[2] == 'm' && "armv5te"@[3] == 'v' && "armv5te"@[4] == '5' && "armv5te"@[5] == 't' && "armv5te"@[6] == 'e');
    reveal_strlit("armv6");
    assert("armv6"@.len() == 5 && "armv6"@[0] == 'a' && "armv6"@[1] == 'r' && "armv6"@[2] == 'm' && "armv6"@[3] == 'v' && "armv6"@[4] == '6');
    reveal_strlit("armv6k");
    assert("armv6k"@.len() == 6 && "armv6k"@[0] == 'a' && "armv6k"@[1] == 'r' && "armv6k"@[2] == 'm' && "armv6k"@[3] == 'v' && "armv6k"@[4] == '6' && "armv6k"@[5] == 'k');
    reveal_strlit("armv7");
    assert("armv7"@.len() == 5 && "armv7"@[0] == 'a' && "armv7"@[1] == 'r' && "armv7"@[2] == 'm' && "armv7"@[3] == 'v' && "armv7"@[4] == '7');
    reveal_strlit("armv7a");
    assert("armv7a"@.len() == 6 && "armv7a"@[0] == 'a' && "armv7a"@[1] == 'r' && "armv7a"@[2] == 'm' && "armv7a"@[3] == 'v' && "armv7a"@[4] == '7' && "armv7a"@[5] == 'a');
    reveal_strlit("armv7k");
    assert("armv7k"@.len() == 6 && "armv7k"@[0] == 'a' && "armv7k"@[1] == 'r' && "armv7k"@[2] == 'm' && "armv7k"@[3] == 'v' && "armv7k"@[4] == '7' && "armv7k"@[5] == 'k');
    reveal_strlit("armv7r");
    assert("armv7r"@.len() == 6 && "armv7r"@[0] == 'a' && "armv7r"@[1] == 'r' && "armv7r"@[2] == 'm' && "armv7r"@[3] == 'v' && "armv7r"@[4] == '7' && "armv7r"@[5] == 'r');
    reveal_strlit("armv7s");
    assert("armv7s"@.len() == 6 && "armv7s"@[0] == 'a' && "armv7s"@[1] == 'r' && "armv7s"@[2] == 'm' && "armv7s"@[3] == 'v' && "armv7s"@[4] == '7' && "armv7s"@[5] == 's');
    reveal_strlit("asmjs");
    assert("asmjs"@.len() == 5 && "asmjs"@[0] == 'a' && "asmjs"@[1] == 's' && "asmjs"@[2] == 'm' && "asmjs"@[3] == 'j' && "asmjs"@[4] == 's');
    reveal_strlit("avr");
    assert("avr"@.len() == 3 && "avr"@[0] == 'a' && "avr"@[1] == 'v' && "avr"@[2] == 'r');
    reveal_strlit("bpfeb");
    assert("bpfeb"@.len() == 5 && "bpfeb"@[0] == 'b' && "bpfeb"@[1] == 'p' && "bpfeb"@[2] == 'f' && "bpfeb"@[3] == 'e' && "bpfeb"@[4] == 'b');
    reveal_strlit("bpfel");
    assert("bpfel"@.len() == 5 && "bpfel"@[0] == 'b' && "bpfel"@[1] == 'p' && "bpfel"@[2] == 'f' && "bpfel"@[3] == 'e' && "bpfel"@[4] == 'l');
    reveal_strlit("hexagon");
    assert("hexagon"@.len() == 7 && "hexagon"@[0] == 'h' && "hexagon"@[1] == 'e' && "hexagon"@[2] == 'x' && "hexagon"@[3] == 'a' && "hexagon"@[4] == 'g' && "hexagon"@[5] == 'o' && "hexagon"@[6] == 'n');
    reveal_strlit("i386");
    assert("i386"@.len() == 4 && "i386"@[0] == 'i' && "i386"@[1] == '3' && "i386"@[2] == '8' && "i386"@[3] == '6');
    reveal_strlit("i586");
    assert("i586"@.len() == 4 && "i586"@[0] == 'i' && "i586"@[1] == '5' && "i586"@[2] == '8' && "i586"@[3] == '6');
    reveal_strlit("i686");
    assert("i686"@.len() == 4 && "i686"@[0] == 'i' && "i686"@[1] == '6' && "i686"@[2] == '8' && "i686"@[3] == '6');
    reveal_strlit("loongarch64");
    assert("loongarch64"@.len() == 11 && "loongarch64"@[0] == 'l' && "loongarch64"@[1] == 'o' && "loongarch64"@[2] == 'o' && "loongarch64"@[3] == 'n' && "loongarch64"@[4] == 'g' && "loongarch64"@[5] == 'a' && "loongarch64"@[6] == 'r' && "loongarch64"@[7] == 'c' && "loongarch64"@[8] == 'h' && "loongarch64"@[9] == '6' && "loongarch64"@[10] == '4');
    reveal_strlit("m68k");
    assert("m68k"@.len() == 4 && "m68k"@[0] == 'm' && "m68k"@[1] == '6' && "m68k"@[2] == '8' && "m68k"@[3] == 'k');
    reveal_strlit("mips");
    assert("mips"@.len() == 4 && "mips"@[0] == 'm' && "mips"@[1] == 'i' && "mips"@[2] == 'p' && "mips"@[3] == 's');
    reveal_strlit("mips64");
    assert("mips64"@.len() == 6 && "mips64"@[0] == 'm' && "mips64"@[1] == 'i' && "mips64"@[2] == 'p' && "mips64"@[3] == 's' && "mips64"@[4] == '6' && "mips64"@[5] == '4');
    reveal_strlit("mips64el");
    assert("mips64el"@.len() == 8 && "mips64el"@[0] == 'm' && "mips64el"@[1] == 'i' && "mips64el"@[2] == 'p' && "mips64el"@[3] == 's' && "mips64el"@[4] == '6' && "mips64el"@[5] == '4' && "mips64el"@[6] == 'e' && "mips64el"@[7] == 'l');
    reveal_strlit("mipsel");
    assert("mipsel"@.len() == 6 && "mipsel"@[0] == 'm' && "mipsel"@[1] == 'i' && "mipsel"@[2] == 'p' && "mipsel"@[3] == 's' && "mipsel"@[4] == 'e' && "mipsel"@[5] == 'l');
    reveal_strlit("mipsisa32r6");
    assert("mipsisa32r6"@.len() == 11 && "mipsisa32r6"@[0] == 'm' && "mipsisa32r6"@[1] == 'i' && "mipsisa32r6"@[2] == 'p' && "mipsisa32r6"@[3] == 's' && "mipsisa32r6"@[4] == 'i' && "mipsisa32r6"@[5] == 's' && "mipsisa32r6"@[6] == 'a' && "mipsisa32r6"@[7] == '3' && "mipsisa32r6"@[8] == '2' && "mipsisa32r6"@[9] == 'r' && "mipsisa32r6"@[10] == '6');
    reveal_strlit("mipsisa32r6el");
    assert("mipsisa32r6el"@.len() == 13 && "mipsisa32r6el"@[0] == 'm' && "mipsisa32r6el"@[1] == 'i' && "mipsisa32r6el"@[2] == 'p' && "mipsisa32r6el"@[3] == 's' && "mipsisa32r6el"@[4] == 'i' && "mipsisa32r6el"@[5] == 's' && "mipsisa32r6el"@[6] == 'a' && "mipsisa32r6el"@[7] == '3' && "mipsisa32r6el"@[8] == '2' && "mipsisa32r6el"@[9] == 'r' && "mipsisa32r6el"@[10] == '6' && "mipsisa32r6el"@[11] == 'e' && "mipsisa32r6el"@[12] == 'l');
    reveal_strlit("mipsisa64r6");
    assert("mipsisa64r6"@.len() == 11 && "mipsisa64r6"@[0] == 'm' && "mipsisa64r6"@[1] == 'i' && "mipsisa64r6"@[2] == 'p' && "mipsisa64r6"@[3] == 's' && "mipsisa64r6"@[4] == 'i' && "mipsisa64r6"@[5] == 's' && "mipsisa64r6"@[6] == 'a' && "mipsisa64r6"@[7] == '6' && "mipsisa64r6"@[8] == '4' && "mipsisa64r6"@[9] == 'r' && "mipsisa64r6"@[10] == '6');
    reveal_strlit("mipsisa64r6el");
    assert("mipsisa64r6el"@.len() == 13 && "mipsisa64r6el"@[0] == 'm' && "mipsisa64r6el"@[1] == 'i' && "mipsisa64r6el"@[2] == 'p' && "mipsisa64r6el"@[3] == 's' && "mipsisa64r6el"@[4] == 'i' && "mipsisa64r6el"@[5] == 's' && "mipsisa64r6el"@[6] == 'a' && "mipsisa64r6el"@[7] == '6' && "mipsisa64r6el"@[8] == '4' && "mipsisa64r6el"@[9] == 'r' && "mipsisa64r6el"@[10] == '6' && "mipsisa64r6el"@[11] == 'e' && "mipsisa64r6el"@[12] == 'l');
    reveal_strlit("msp430");
    assert("msp430"@.len() == 6 && "msp430"@[0] == 'm' && "msp430"@[1] == 's' && "msp430"@[2] == 'p' && "msp430"@[3] == '4' && "msp430"@[4] == '3' && "msp430"@[5] == '0');
    reveal_strlit("nvptx64");
    assert("nvptx64"@.len() == 7 && "nvptx64"@[0] == 'n' && "nvptx64"@[1] == 'v' && "nvptx64"@[2] == 'p' && "nvptx64"@[3] == 't' && "nvptx64"@[4] == 'x' && "nvptx64"@[5] == '6' && "nvptx64"@[6] == '4');
    reveal_strlit("powerpc");
    assert("powerpc"@.len() == 7 && "powerpc"@[0] == 'p' && "powerpc"@[1] == 'o' && "powerpc"@[2] == 'w' && "powerpc"@[3] == 'e' && "powerpc"@[4] == 'r' && "powerpc"@[5] == 'p' && "powerpc"@[6] == 'c');
    reveal_strlit("powerpc64");
    assert("powerpc64"@.len() == 9 && "powerpc64"@[0] == 'p' && "powerpc64"@[1] == 'o' && "powerpc64"@[2] == 'w' && "powerpc64"@[3] == 'e' && "powerpc64"@[4] == 'r' && "powerpc64"@[5] == 'p' && "powerpc64"@[6] == 'c' && "powerpc64"@[7] == '6' && "powerpc64"@[8] == '4');
    reveal_strlit("powerpc64le");
    assert("powerpc64le"@.len() == 11 && "powerpc64le"@[0] == 'p' && "powerpc64le"@[1] == 'o' && "powerpc64le"@[2] == 'w' && "powerpc64le"@[3] == 'e' && "powerpc64le"@[4] == 'r' && "powerpc64le"@[5] == 'p' && "powerpc64le"@[6] == 'c' && "powerpc64le"@[7] == '6' && "powerpc64le"@[8] == '4' && "powerpc64le"@[9] == 'l' && "powerpc64le"@[10] == 'e');
    reveal_strlit("riscv32gc");
    assert("riscv32gc"@.len() == 9 && "riscv32gc"@[0] == 'r' && "riscv32gc"@[1] == 'i' && "riscv32gc"@[2] == 's' && "riscv32gc"@[3] == 'c' && "riscv32gc"@[4] == 'v' && "riscv32gc"@[5] == '3' && "riscv32gc"@[6] == '2' && "riscv32gc"@[7] == 'g' && "riscv32gc"@[8] == 'c');
    reveal_strlit("riscv32i");
    assert("riscv32i"@.len() == 8 && "riscv32i"@[0] == 'r' && "riscv32i"@[1] == 'i' && "riscv32i"@[2] == 's' && "riscv32i"@[3] == 'c' && "riscv32i"@[4] == 'v' && "riscv32i"@[5] == '3' && "riscv32i"@[6] == '2' && "riscv32i"@[7] == 'i');
    reveal_strlit("riscv32im");
    assert("riscv32im"@.len() == 9 && "riscv32im"@[0] == 'r' && "riscv32im"@[1] == 'i' && "riscv32im"@[2] == 's' && "riscv32im"@[3] == 'c' && "riscv32im"@[4] == 'v' && "riscv32im"@[5] == '3' && "riscv32im"@[6] == '2' && "riscv32im"@[7] == 'i' && "riscv32im"@[8] == 'm');
    reveal_strlit("riscv32imac");
    assert("riscv32imac"@.len() == 11 && "riscv32imac"@[0] == 'r' && "riscv32imac"@[1] == 'i' && "riscv32imac"@[2] == 's' && "riscv32imac"@[3] == 'c' && "riscv32imac"@[4] == 'v' && "riscv32imac"@[5] == '3' && "riscv32imac"@[6] == '2' && "riscv32imac"@[7] == 'i' && "riscv32imac"@[8] == 'm' && "riscv32imac"@[9] == 'a' && "riscv32imac"@[10] == 'c');
    reveal_strlit("riscv32imc");
    assert("riscv32imc"@.len() == 10 && "riscv32imc"@[0] == 'r' && "riscv32imc"@[1] == 'i' && "riscv32imc"@[2] == 's' && "riscv32imc"@[3] == 'c' && "riscv32imc"@[4] == 'v' && "riscv32imc"@[5] == '3' && "riscv32imc"@[6] == '2' && "riscv32imc"@[7] == 'i' && "riscv32imc"@[8] == 'm' && "riscv32imc"@[9] == 'c');
    reveal_strlit("riscv64gc");
    assert("riscv64gc"@.len() == 9 && "riscv64gc"@[0] == 'r' && "riscv64gc"@[1] == 'i' && "riscv64gc"@[2] == 's' && "riscv64gc"@[3] == 'c' && "riscv64gc"@[4] == 'v' && "riscv64gc"@[5] == '6' && "riscv64gc"@[6] == '4' && "riscv64gc"@[7] == 'g' && "riscv64gc"@[8] == 'c');
    reveal_strlit("riscv64imac");
    assert("riscv64imac"@.len() == 11 && "riscv64imac"@[0] == 'r' && "riscv64imac"@[1] == 'i' && "riscv64imac"@[2] == 's' && "riscv64imac"@[3] == 'c' && "riscv64imac"@[4] == 'v' && "riscv64imac"@[5] == '6' && "riscv64imac"@[6] == '4' && "riscv64imac"@[7] == 'i' && "riscv64imac"@[8] == 'm' && "riscv64imac"@[9] == 'a' && "riscv64imac"@[10] == 'c');
    reveal_strlit("s390x");
    assert("s390x"@.len() == 5 && "s390x"@[0] == 's' && "s390x"@[1] == '3' && "s390x"@[2] == '9' && "s390x"@[3] == '0' && "s390x"@[4] == 'x');
    reveal_strlit("sparc");
    assert("sparc"@.len() == 5 && "sparc"@[0] == 's' && "sparc"@[1] == 'p' && "sparc"@[2] == 'a' && "sparc"@[3] == 'r' && "sparc"@[4] == 'c');
    reveal_strlit("sparc64");
    assert("sparc64"@.len() == 7 && "sparc64"@[0] == 's' && "sparc64"@[1] == 'p' && "sparc64"@[2] == 'a' && "sparc64"@[3] == 'r' && "sparc64"@[4] == 'c' && "sparc64"@[5] == '6' && "sparc64"@[6] == '4');
    reveal_strlit("sparcv9");
    assert("sparcv9"@.len() == 7 && "sparcv9"@[0] == 's' && "sparcv9"@[1] == 'p' && "sparcv9"@[2] == 'a' && "sparcv9"@[3] == 'r' && "sparcv9"@[4] == 'c' && "sparcv9"@[5] == 'v' && "sparcv9"@[6] == '9');
    reveal_strlit("thumbv4t");
    assert("thumbv4t"@.len() == 8 && "thumbv4t"@[0] == 't' && "thumbv4t"@[1] == 'h' && "thumbv4t"@[2] == 'u' && "thumbv4t"@[3] == 'm' && "thumbv4t"@[4] == 'b' && "thumbv4t"@[5] == 'v' && "thumbv4t"@[6] == '4' && "thumbv4t"@[7] == 't');
    reveal_strlit("thumbv5te");
    assert("thumbv5te"@.len() == 9 && "thumbv5te"@[0] == 't' && "thumbv5te"@[1] == 'h' && "thumbv5te"@[2] == 'u' && "thumbv5te"@[3] == 'm' && "thumbv5te"@[4] == 'b' && "thumbv5te"@[5] == 'v' && "thumbv5te"@[6] == '5' && "thumbv5te"@[7] == 't' && "thumbv5te"@[8] == 'e');
    reveal_strlit("thumbv6m");
    assert("thumbv6m"@.len() == 8 && "thumbv6m"@[0] == 't' && "thumbv6m"@[1] == 'h' && "thumbv6m"@[2] == 'u' && "thumbv6m"@[3] == 'm' && "thumbv6m"@[4] == 'b' && "thumbv6m"@[5] == 'v' && "thumbv6m"@[6] == '6' && "thumbv6m"@[7] == 'm');
    reveal_strlit("thumbv7a");
    assert("thumbv7a"@.len() == 8 && "thumbv7a"@[0] == 't' && "thumbv7a"@[1] == 'h' && "thumbv7a"@[2] == 'u' && "thumbv7a"@[3] == 'm' && "thumbv7a"@[4] == 'b' && "thumbv7a"@[5] == 'v' && "thumbv7a"@[6] == '7' && "thumbv7a"@[7] == 'a');
    reveal_strlit("thumbv7em");
    assert("thumbv7em"@.len() == 9 && "thumbv7em"@[0] == 't' && "thumbv7em"@[1] == 'h' && "thumbv7em"@[2] == 'u' && "thumbv7em"@[3] == 'm' && "thumbv7em"@[4] == 'b' && "thumbv7em"@[5] == 'v' && "thumbv7em"@[6] == '7' && "thumbv7em"@[7] == 'e' && "thumbv7em"@[8] == 'm');
    reveal_strlit("thumbv7m");
    assert("thumbv7m"@.len() == 8 && "thumbv7m"@[0] == 't' && "thumbv7m"@[1] == 'h' && "thumbv7m"@[2] == 'u' && "thumbv7m"@[3] == 'm' && "thumbv7m"@[4] == 'b' && "thumbv7m"@[5] == 'v' && "thumbv7m"@[6] == '7' && "thumbv7m"@[7] == 'm');
    reveal_strlit("thumbv7neon");
    assert("thumbv7neon"@.len() == 11 && "thumbv7neon"@[0] == 't' && "thumbv7neon"@[1] == 'h' && "thumbv7neon"@[2] == 'u' && "thumbv7neon"@[3] == 'm' && "thumbv7neon"@[4] == 'b' && "thumbv7neon"@[5] == 'v' && "thumbv7neon"@[6] == '7' && "thumbv7neon"@[7] == 'n' && "thumbv7neon"@[8] == 'e' && "thumbv7neon"@[9] == 'o' && "thumbv7neon"@[10] == 'n');
    reveal_strlit("thumbv8m_base");
    assert("thumbv8m_base"@.len() == 13 && "thumbv8m_base"@[0] == 't' && "thumbv8m_base"@[1] == 'h' && "thumbv8m_base"@[2] == 'u' && "thumbv8m_base"@[3] == 'm' && "thumbv8m_base"@[4] == 'b' && "thumbv8m_base"@[5] == 'v' && "thumbv8m_base"@[6] == '8' && "thumbv8m_base"@[7] == 'm' && "thumbv8m_base"@[8] == '_' && "thumbv8m_base"@[9] == 'b' && "thumbv8m_base"@[10] == 'a' && "thumbv8m_base"@[11] == 's' && "thumbv8m_base"@[12] == 'e');
    reveal_strlit("thumbv8m_main");
    assert("thumbv8m_main"@.len() == 13 && "thumbv8m_main"@[0] == 't' && "thumbv8m_main"@[1] == 'h' && "thumbv8m_main"@[2] == 'u' && "thumbv8m_main"@[3] == 'm' && "thumbv8m_main"@[4] == 'b' && "thumbv8m_main"@[5] == 'v' && "thumbv8m_main"@[6] == '8' && "thumbv8m_main"@[7] == 'm' && "thumbv8m_main"@[8] == '_' && "thumbv8m_main"@[9] == 'm' && "thumbv8m_main"@[10] == 'a' && "thumbv8m_main"@[11] == 'i' && "thumbv8m_main"@[12] == 'n');
    reveal_strlit("wasm32");
    assert("wasm32"@.len() == 6 && "wasm32"@[0] == 'w' && "wasm32"@[1] == 'a' && "wasm32"@[2] == 's' && "wasm32"@[3] == 'm' && "wasm32"@[4] == '3' && "wasm32"@[5] == '2');
    reveal_strlit("wasm64");
    assert("wasm64"@.len() == 6 && "wasm64"@[0] == 'w' && "wasm64"@[1] == 'a' && "wasm64"@[2] == 's' && "wasm64"@[3] == 'm' && "wasm64"@[4] == '6' && "wasm64"@[5] == '4');
    reveal_strlit("x86_64");
    assert("x86_64"@.len() == 6 && "x86_64"@[0] == 'x' && "x86_64"@[1] == '8' && "x86_64"@[2] == '6' && "x86_64"@[3] == '_' && "x86_64"@[4] == '6' && "x86_64"@[5] == '4');
    reveal_strlit("x86_64h");
    assert("x86_64h"@.len() == 7 && "x86_64h"@[0] == 'x' && "x86_64h"@[1] == '8' && "x86_64h"@[2] == '6' && "x86_64h"@[3] == '_' && "x86_64h"@[4] == '6' && "x86_64h"@[5] == '4' && "x86_64h"@[6] == 'h');
}

} // verus!
