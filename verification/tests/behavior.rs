use to_absolute::Error;
use to_absolute::Resolution;
use to_absolute::reencode_canonical;
use to_absolute::to_absolute;

/// A stand-in for the environment's canonicalization facility, on a
/// filesystem where every well-formed path exists and no segment is a
/// symbolic link: `.` and `..` segments of an ordinary path are resolved;
/// a verbatim path takes its segments literally, so a `.` or `..` segment
/// names no entry and the call fails as the environment's would.
fn fake_canonicalize(path: &str) -> Result<String, Error> {
    if let Some(rest) = path.strip_prefix(r"\\?\") {
        if rest.split('\\').any(|seg| seg == "." || seg == "..") {
            return Err(Error::IoError(
                "the system cannot find the path specified".to_string(),
            ));
        }
        Ok(path.to_string())
    } else if path.starts_with(r"\\") || path.starts_with("//") {
        Ok(path.to_string())
    } else {
        let (drive, rest) = path.split_at(2);
        let mut segs: Vec<&str> = Vec::new();
        for seg in rest.split(['\\', '/']) {
            if seg.is_empty() || seg == "." {
                continue;
            }
            if seg == ".." {
                segs.pop();
            } else {
                segs.push(seg);
            }
        }
        Ok(format!("{}\\{}", drive, segs.join("\\")))
    }
}

/// Runs the whole pipeline: the library's decision, the environment
/// stand-in's canonicalization, the library's re-encode.
fn toabs(cur: &str, rel: &str) -> Result<String, Error> {
    match to_absolute(cur, rel)? {
        Resolution::AlreadyAbsolute(p) => Ok(p),
        Resolution::Canonicalize(joined) => reencode_canonical(&fake_canonicalize(&joined)?),
    }
}

#[test]
fn absolute_input_is_returned_verbatim() {
    // An already-absolute input bypasses the base check, the environment and
    // all normalization, whatever the base looks like.
    assert!(matches!(
        to_absolute("not-absolute", r#"C:\Windows"#),
        Ok(Resolution::AlreadyAbsolute(p)) if p == r#"C:\Windows"#
    ));
    assert_eq!(
        r#"C:\x\..\y"#,
        toabs(r#"relative\base"#, r#"C:\x\..\y"#).unwrap()
    );
}

#[test]
fn relative_base_is_rejected() {
    assert!(matches!(
        to_absolute(r#"a\b"#, "c"),
        Err(Error::CurrentIsRelative)
    ));
    // A drive designator without a root is still relative.
    assert!(matches!(
        to_absolute("C:relative", "x"),
        Err(Error::CurrentIsRelative)
    ));
    // A rooted path without a drive designator is not absolute either.
    assert!(matches!(
        to_absolute(r#"\rooted\but\driveless"#, "x"),
        Err(Error::CurrentIsRelative)
    ));
}

#[test]
fn resolution_hands_the_join_to_canonicalization() {
    // The library decides nothing the environment owns: for a relative path
    // and an absolute base it produces the joined path to canonicalize,
    // never a finished result of its own.
    assert!(matches!(
        to_absolute(r#"C:\x"#, "y"),
        Ok(Resolution::Canonicalize(j)) if j == r#"C:\x\y"#
    ));
}

#[test]
fn nonexistent_target_is_an_io_error() {
    // When the environment's canonicalization fails — the joined target does
    // not exist — the pipeline surfaces its error as the I/O kind, wrapping
    // the environment's message; no success value is fabricated.
    let joined = match to_absolute(r#"C:\base"#, r#"missing\file"#).unwrap() {
        Resolution::Canonicalize(j) => j,
        Resolution::AlreadyAbsolute(_) => unreachable!(),
    };
    assert_eq!(r#"C:\base\missing\file"#, joined);
    let environment: Result<String, Error> = Err(Error::IoError(
        "The system cannot find the file specified. (os error 2)".to_string(),
    ));
    let res = environment.and_then(|c| reencode_canonical(&c));
    assert!(matches!(res, Err(Error::IoError(_))));
}

#[test]
fn unc_and_device_bases_are_rejected() {
    // Even on a filesystem where the joined targets exist, a base under an
    // unsupported prefix kind is rejected, with no partial result.
    assert!(matches!(
        toabs(r#"\\server\share"#, "x"),
        Err(Error::UnsupportedPrefix)
    ));
    assert!(matches!(
        toabs(r#"\\.\COM1"#, "x"),
        Err(Error::UnsupportedPrefix)
    ));
    assert!(matches!(
        toabs(r#"\\?\UNC\server\share"#, "x"),
        Err(Error::UnsupportedPrefix)
    ));
    assert!(matches!(
        toabs(r#"\\?\pictures"#, "x"),
        Err(Error::UnsupportedPrefix)
    ));
}

#[test]
fn verbatim_disk_with_dots_is_an_io_error() {
    // A verbatim path leaves `.` and `..` uninterpreted, so the environment
    // cannot resolve the joined path and its failure comes back as the I/O
    // kind.
    assert!(matches!(
        toabs(r#"\\?\C:\"#, r#".\x"#),
        Err(Error::IoError(_))
    ));
    assert!(matches!(
        toabs(r#"\\?\C:\a"#, r#"..\b"#),
        Err(Error::IoError(_))
    ));
}

#[test]
fn verbatim_disk_without_dots_resolves() {
    assert_eq!(
        r#"C:\Windows\System32"#,
        toabs(r#"\\?\C:\Windows"#, "System32").unwrap()
    );
}

#[test]
fn reencode_preserves_canonical_components() {
    // An already-canonical disk path is re-encoded into itself; a verbatim
    // disk prefix becomes the plain two-character token; other prefixes are
    // rejected.
    assert_eq!(
        r#"C:\Windows\System32"#,
        reencode_canonical(r#"C:\Windows\System32"#).unwrap()
    );
    assert_eq!(r#"C:\"#, reencode_canonical(r#"C:\"#).unwrap());
    assert_eq!(
        r#"C:\Windows"#,
        reencode_canonical(r#"\\?\C:\Windows"#).unwrap()
    );
    assert!(matches!(
        reencode_canonical(r#"\\server\share\x"#),
        Err(Error::UnsupportedPrefix)
    ));
    assert!(matches!(
        reencode_canonical(r#"\\.\pipe\x"#),
        Err(Error::UnsupportedPrefix)
    ));
}

#[test]
fn drive_letter_case_is_preserved() {
    assert_eq!(
        r#"c:\Users\file.txt"#,
        toabs(r#"c:\Users"#, "file.txt").unwrap()
    );
    assert_eq!(r#"Z:\data"#, toabs(r#"Z:\"#, "data").unwrap());
}

#[test]
fn parent_of_the_root_is_the_root() {
    assert_eq!(r#"C:\Windows"#, toabs(r#"C:\"#, r#"..\..\Windows"#).unwrap());
    assert_eq!(r#"C:\"#, toabs(r#"C:\"#, ".").unwrap());
}

#[test]
fn separators_collapse_and_forward_slashes_count() {
    assert_eq!(r#"C:\Users\docs"#, toabs("C:/Users", "docs").unwrap());
    assert_eq!(r#"C:\a\b"#, toabs(r#"C:\a\"#, r#".\\b"#).unwrap());
}

#[test]
fn empty_relative_resolves_to_the_base() {
    assert_eq!(r#"C:\a"#, toabs(r#"C:\a"#, "").unwrap());
}

#[test]
fn error_messages_are_distinct() {
    let a = toabs("rel", "x").unwrap_err().message();
    let b = toabs(r#"\\server\share"#, "x").unwrap_err().message();
    let c = toabs(r#"\\?\C:\"#, r#".\x"#).unwrap_err().message();
    assert_eq!(
        a,
        "the path specified as current directory was relative path."
    );
    assert_eq!(b, "the path specified has the prefix that isn't supported.");
    assert!(c.starts_with("io::Error happened: "));
    assert_ne!(a, b);
}
