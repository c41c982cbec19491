use to_absolute::Error;
use to_absolute::Resolution;
use to_absolute::reencode_canonical;
use to_absolute::to_absolute;

/// A stand-in for the environment's canonicalization facility, on a
/// filesystem where every well-formed path exists and no segment is a
/// symbolic link: `.` and `..` segments of an ordinary path are resolved;
/// a verbatim path takes its segments literally, so a `.` or `..` segment
/// names no entry and the call fails as the environment's would.
fn fake_canonicalize(path: &str) -> Result<String, Error> {
    if let Some(rest) = path.strip_prefix(r"\\?\") {
        if rest.split('\\').any(|seg| seg == "." || seg == "..") {
            return Err(Error::IoError(
                "the system cannot find the path specified".to_string(),
            ));
        }
        Ok(path.to_string())
    } else if path.starts_with(r"\\") || path.starts_with("//") {
        Ok(path.to_string())
    } else {
        let (drive, rest) = path.split_at(2);
        let mut segs: Vec<&str> = Vec::new();
        for seg in rest.split(['\\', '/']) {
            if seg.is_empty() || seg == "." {
                continue;
            }
            if seg == ".." {
                segs.pop();
            } else {
                segs.push(seg);
            }
        }
        Ok(format!("{}\\{}", drive, segs.join("\\")))
    }
}

/// Runs the whole pipeline: the library's decision, the environment
/// stand-in's canonicalization, the library's re-encode.
fn toabs(cur: &str, rel: &str) -> Result<String, Error> {
    match to_absolute(cur, rel)? {
        Resolution::AlreadyAbsolute(p) => Ok(p),
        Resolution::Canonicalize(joined) => reencode_canonical(&fake_canonicalize(&joined)?),
    }
}

#[test]
fn test_supported() {
    assert_eq!(
        r#"C:\Windows\System32"#,
        toabs(r#"C:\"#, r#".\Windows\System32"#).unwrap()
    );

    assert_eq!(
        r#"C:\Windows\System32"#,
        toabs(r#"C:\Program Files"#, r#"..\Windows\System32"#).unwrap()
    );

    assert_eq!(
        r#"C:\Windows\System32"#,
        toabs(
            r#"C:\Program Files\..\Windows\Fonts"#,
            r#"..\..\Windows\System32"#
        )
        .unwrap()
    );
}

#[test]
fn test_unsupported() {
    assert!(toabs(r#"\\?\pictures"#, r#".\Windows\System32"#).is_err());

    assert!(toabs(r#"\\?\C:\"#, r#".\Windows\System32"#).is_err());
}
