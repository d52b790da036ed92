//! What the build says about the database library, which is always the bundled one.
use vstd::prelude::*;

verus! {

/// What texts say.
pub open spec fn viewed(lines: Seq<String>) -> Seq<Seq<char>> {
    Seq::new(lines.len(), |i: int| lines[i]@)
}

/// The lines that the build prints for Cargo, given whether a directory with another SQLite
/// library is set, and the version of the package.
pub open spec fn build_lines(lib_dir_is_set: bool, version: Option<Seq<char>>) -> Seq<Seq<char>> {
    let warnings = if lib_dir_is_set {
        seq![
            "cargo:warning=SQLITE3_LIB_DIR is set, but bundled SQLite should be used instead"@,
            "cargo:warning=Unsetting SQLITE3_LIB_DIR to force bundled SQLite"@,
        ]
    } else {
        seq![]
    };
    let version = match version {
        Some(v) => v,
        None => "unknown"@,
    };
    seq!["cargo:rerun-if-changed=build.rs"@] + warnings + seq![
        "cargo:rustc-cfg=sqlite_bundled"@,
        "cargo:warning=Building Epic Wallet with bundled SQLite for version "@ + version,
        "cargo:rustc-cfg=bundled_sqlite"@,
        "cargo:rustc-check-cfg=cfg(bundled_sqlite)"@,
    ]
}

/// The build names the version of the package, whatever it is, or says that it is unknown; and a
/// directory with another SQLite library adds two warnings after the first line, and changes
/// nothing else.
pub proof fn law_build_names_the_version(lib_dir_is_set: bool, version: Option<Seq<char>>)
    ensures
        ({
            let lines = build_lines(lib_dir_is_set, version);
            let plain = build_lines(false, version);
            let unknown = build_lines(false, Some("unknown"@));
            &&& plain.len() == 5
            &&& version matches Some(v) ==> plain[2]
                == "cargo:warning=Building Epic Wallet with bundled SQLite for version "@ + v
            &&& version is None ==> plain == unknown
            &&& plain == unknown.update(2, plain[2])
            &&& !lib_dir_is_set ==> lines == plain
            &&& lib_dir_is_set ==> {
                &&& lines.len() == 7
                &&& lines.take(1) == plain.take(1)
                &&& lines.skip(3) == plain.skip(1)
                &&& lines.take(3) == build_lines(true, None).take(3)
            }
        }),
{
    let lines = build_lines(lib_dir_is_set, version);
    let plain = build_lines(false, version);
    let unknown = build_lines(false, Some("unknown"@));
    assert(plain =~= unknown.update(2, plain[2]));
    if lib_dir_is_set {
        assert(lines.take(1) =~= plain.take(1));
        assert(lines.skip(3) =~= plain.skip(1));
        assert(lines.take(3) =~= build_lines(true, None).take(3));
    }
}

/// Makes the lines that the build prints for Cargo.
pub fn directives(lib_dir_is_set: bool, version: Option<&str>) -> (lines: Vec<String>)
    ensures
        viewed(lines@) == build_lines(
            lib_dir_is_set,
            match version {
                Some(v) => Some(v@),
                None => None,
            },
        ),
{
    let mut lines: Vec<String> = Vec::new();
    lines.push("cargo:rerun-if-changed=build.rs".to_owned());
    if lib_dir_is_set {
        lines.push(
            "cargo:warning=SQLITE3_LIB_DIR is set, but bundled SQLite should be used instead".to_owned(),
        );
        lines.push("cargo:warning=Unsetting SQLITE3_LIB_DIR to force bundled SQLite".to_owned());
    }
    lines.push("cargo:rustc-cfg=sqlite_bundled".to_owned());
    let mut building: String =
        "cargo:warning=Building Epic Wallet with bundled SQLite for version ".to_owned();
    match version {
        Some(v) => building.append(v),
        None => building.append("unknown"),
    }
    lines.push(building);
    lines.push("cargo:rustc-cfg=bundled_sqlite".to_owned());
    lines.push("cargo:rustc-check-cfg=cfg(bundled_sqlite)".to_owned());
    assert(viewed(lines@) =~= build_lines(
        lib_dir_is_set,
        match version {
            Some(v) => Some(v@),
            None => None,
        },
    ));
    lines
}

/// What is printed names the version that was given, and says all of it; without one it is what is
/// printed for a version of that name.
pub proof fn law_printed_lines_name_the_version(
    lib_dir_is_set: bool,
    version: &str,
    lines: Vec<String>,
    without: Vec<String>,
    i: int,
)
    requires
        call_ensures(directives, (lib_dir_is_set, Some(version)), lines),
        call_ensures(directives, (lib_dir_is_set, None), without),
        0 <= i < lines@.len(),
    ensures
        lines@.len() == without@.len(),
        lines@.len() == if lib_dir_is_set {
            7int
        } else {
            5
        },
        i == lines@.len() - 3 ==> lines@[i]@
            == "cargo:warning=Building Epic Wallet with bundled SQLite for version "@ + version@,
        i != lines@.len() - 3 || version@ == "unknown"@ ==> lines@[i]@ == without@[i]@,
{
    law_build_names_the_version(lib_dir_is_set, Some(version@));
    law_build_names_the_version(lib_dir_is_set, None);
    assert(viewed(lines@)[i] == lines@[i]@);
    assert(viewed(lines@).len() == viewed(without@).len());
    assert(viewed(without@)[i] == without@[i]@);
}

} // verus!
