use vstd::prelude::*;
use crate::filter::texts;

verus! {

/// The kind of system the scanner runs on, which decides its default
/// exclusions.
#[derive(Clone, Copy, Debug, PartialEq, Eq, Structural)]
pub enum Platform {
    Windows,
    MacOs,
    Linux,
    Other,
}

/// The platform that an operating-system name (as `std::env::consts::OS`
/// gives it) stands for.
pub open spec fn platform_named(os: Seq<char>) -> Platform {
    if os == "windows"@ {
        Platform::Windows
    } else if os == "macos"@ {
        Platform::MacOs
    } else if os == "linux"@ {
        Platform::Linux
    } else {
        Platform::Other
    }
}

impl Platform {
    /// The platform named `os`: `windows`, `macos` or `linux`; any other name
    /// is `Other`.
    pub fn from_os_name(os: &str) -> (r: Platform)
        ensures
            r == platform_named(os@),
    {
        let name = String::from_str(os);
        if name == String::from_str("windows") {
            Platform::Windows
        } else if name == String::from_str("macos") {
            Platform::MacOs
        } else if name == String::from_str("linux") {
            Platform::Linux
        } else {
            Platform::Other
        }
    }
}

/// The fragments excluded on every platform: system folders, version-control
/// metadata, dependency caches and temporary folders.
pub open spec fn common_excludes() -> Seq<Seq<char>> {
    seq![
        "Windows"@,
        "Program Files"@,
        "Program Files (x86)"@,
        "ProgramData"@,
        "System Volume Information"@,
        "$Recycle.Bin"@,
        "$RECYCLE.BIN"@,
        "node_modules"@,
        "venv"@,
        ".venv"@,
        "env"@,
        ".env"@,
        "__pycache__"@,
        "AppData"@,
        "tmp"@,
        "temp"@,
        ".git"@,
    ]
}

/// The fragments excluded on one platform in addition to the common ones.
pub open spec fn platform_excludes(p: Platform) -> Seq<Seq<char>> {
    match p {
        Platform::MacOs => seq!["Library"@, "System"@],
        Platform::Linux => seq![
            "bin"@,
            "boot"@,
            "dev"@,
            "etc"@,
            "lib"@,
            "lib64"@,
            "proc"@,
            "sys"@,
            "var"@,
        ],
        _ => Seq::empty(),
    }
}

fn push_all(v: &mut Vec<String>, items: &[&str])
    ensures
        texts(final(v)@) == texts(old(v)@) + items@.map_values(|s: &str| s@),
{
    let ghost start = texts(v@);
    let mut k: usize = 0;
    while k < items.len()
        invariant
            0 <= k <= items@.len(),
            texts(v@) == start + items@.subrange(0, k as int).map_values(|s: &str| s@),
        decreases items@.len() - k,
    {
        let ghost prev = v@;
        let item = String::from_str(items[k]);
        v.push(item);
        assert(texts(v@) =~= texts(prev).push(items@[k as int]@));
        assert(items@.subrange(0, k + 1).map_values(|s: &str| s@) =~= items@.subrange(
            0,
            k as int,
        ).map_values(|s: &str| s@).push(items@[k as int]@));
        k = k + 1;
        assert(texts(v@) =~= start + items@.subrange(0, k as int).map_values(|s: &str| s@));
    }
    assert(items@.subrange(0, k as int) =~= items@);
}

/// The excluded fragments used when the caller names none: the common ones,
/// then those of the platform.
pub fn get_default_exclude_dirs(platform: Platform) -> (r: Vec<String>)
    ensures
        texts(r@) == common_excludes() + platform_excludes(platform),
{
    let mut exclude: Vec<String> = Vec::new();
    let common = [
        "Windows",
        "Program Files",
        "Program Files (x86)",
        "ProgramData",
        "System Volume Information",
        "$Recycle.Bin",
        "$RECYCLE.BIN",
        "node_modules",
        "venv",
        ".venv",
        "env",
        ".env",
        "__pycache__",
        "AppData",
        "tmp",
        "temp",
        ".git",
    ];
    push_all(&mut exclude, &common);
    assert(common@.map_values(|s: &str| s@) =~= common_excludes());
    match platform {
        Platform::MacOs => {
            let extra = ["Library", "System"];
            push_all(&mut exclude, &extra);
            assert(extra@.map_values(|s: &str| s@) =~= platform_excludes(platform));
        },
        Platform::Linux => {
            let extra = ["bin", "boot", "dev", "etc", "lib", "lib64", "proc", "sys", "var"];
            push_all(&mut exclude, &extra);
            assert(extra@.map_values(|s: &str| s@) =~= platform_excludes(platform));
        },
        _ => {
            assert(texts(exclude@) =~= common_excludes() + platform_excludes(platform));
        },
    }
    exclude
}

} // verus!
