use kcov_diagnostics::errors::Diagnostic;
use kcov_diagnostics::render::Chunk;
use kcov_diagnostics::render::Color;
use kcov_diagnostics::render::Platform;
use kcov_diagnostics::render::EXIT_CODE;

const INSTALL_URL: &str = "https://users.rust-lang.org/t/650";
const INSTALL_TRIGGER: &str = "cargo kcov --print-install-kcov-sh | sh\n";
const REBUILD_COMMANDS: &str = "cargo clean &&\n        RUSTFLAGS=\"-C link-dead-code\" cargo test --no-run &&\n        cargo kcov --no-clean-rebuild\n\n                \n";

fn all_variants() -> Vec<Diagnostic> {
    vec![
        Diagnostic::UnsupportedOS,
        Diagnostic::KcovTooOld,
        Diagnostic::KcovNotInstalled(String::from("no such file or directory")),
        Diagnostic::CannotRunCargo(String::from("permission denied")),
        Diagnostic::Utf8(String::from("invalid utf-8 sequence of 1 bytes from index 0")),
        Diagnostic::Json(Some(String::from("EOF while parsing an object at line 1 column 1"))),
        Diagnostic::Json(None),
        Diagnostic::CannotCreateCoverageDirectory(String::from("read-only file system")),
        Diagnostic::Cargo {
            subcommand: String::from("test"),
            status: String::from("exit status: 101"),
            stderr: vec![b'o', b'o', b'p', b's'],
        },
        Diagnostic::KcovFailed(Ok(String::from("exit status: 1"))),
        Diagnostic::KcovFailed(Err(String::from("interrupted"))),
        Diagnostic::NoCoverallsId,
        Diagnostic::CannotFindTestTargets(Some(String::from("not a directory"))),
        Diagnostic::CannotFindTestTargets(None),
    ]
}

/// The written output of a chunk sequence: text and raw bytes in order,
/// styling changes dropped.
fn written_bytes(chunks: &[Chunk]) -> Vec<u8> {
    let mut out: Vec<u8> = Vec::new();
    for c in chunks {
        match c {
            Chunk::Text(s) => out.extend_from_slice(s.as_bytes()),
            Chunk::Raw(b) => out.extend_from_slice(b),
            _ => {}
        }
    }
    out
}

fn written_text(chunks: &[Chunk]) -> String {
    String::from_utf8_lossy(&written_bytes(chunks)).into_owned()
}

#[test]
fn description_is_nonempty_for_every_variant() {
    for d in all_variants() {
        assert!(!d.description().is_empty());
    }
}

#[test]
fn description_is_pure() {
    for d in all_variants() {
        assert_eq!(d.description(), d.description());
    }
}

#[test]
fn description_fixed_texts() {
    assert_eq!(
        Diagnostic::UnsupportedOS.description(),
        "kcov cannot collect coverage on Windows."
    );
    assert_eq!(
        Diagnostic::KcovTooOld.description(),
        "kcov is too old. v30 or above is required."
    );
    assert_eq!(
        Diagnostic::KcovNotInstalled(String::new()).description(),
        "kcov not installed."
    );
    assert_eq!(
        Diagnostic::CannotRunCargo(String::new()).description(),
        "cannot run cargo"
    );
    assert_eq!(
        Diagnostic::Utf8(String::new()).description(),
        "output is not UTF-8 encoded"
    );
    assert_eq!(Diagnostic::Json(None).description(), "cannot parse JSON");
    assert_eq!(
        Diagnostic::CannotCreateCoverageDirectory(String::new()).description(),
        "cannot create coverage output directory"
    );
    assert_eq!(
        Diagnostic::Cargo {
            subcommand: String::from("build"),
            status: String::from("exit status: 1"),
            stderr: Vec::new(),
        }
        .description(),
        "cargo subcommand failure"
    );
    assert_eq!(
        Diagnostic::KcovFailed(Ok(String::from("exit status: 1"))).description(),
        "failed to get coverage"
    );
    assert_eq!(
        Diagnostic::NoCoverallsId.description(),
        "missing environment variable TRAVIS_JOB_ID for coveralls"
    );
    assert_eq!(
        Diagnostic::CannotFindTestTargets(None).description(),
        "cannot find test targets"
    );
}

#[test]
fn cause_present_exactly_where_a_lower_error_exists() {
    assert!(Diagnostic::UnsupportedOS.cause().is_none());
    assert!(Diagnostic::KcovTooOld.cause().is_none());
    assert_eq!(
        Diagnostic::KcovNotInstalled(String::from("a")).cause(),
        Some(&String::from("a"))
    );
    assert_eq!(
        Diagnostic::CannotRunCargo(String::from("b")).cause(),
        Some(&String::from("b"))
    );
    assert_eq!(
        Diagnostic::Utf8(String::from("c")).cause(),
        Some(&String::from("c"))
    );
    assert_eq!(
        Diagnostic::Json(Some(String::from("d"))).cause(),
        Some(&String::from("d"))
    );
    assert!(Diagnostic::Json(None).cause().is_none());
    assert_eq!(
        Diagnostic::CannotCreateCoverageDirectory(String::from("e")).cause(),
        Some(&String::from("e"))
    );
    assert!(
        Diagnostic::Cargo {
            subcommand: String::from("test"),
            status: String::from("exit status: 1"),
            stderr: vec![b'x'],
        }
        .cause()
        .is_none()
    );
    assert_eq!(
        Diagnostic::KcovFailed(Ok(String::from("exit status: 1"))).cause(),
        Some(&String::from("exit status: 1"))
    );
    assert_eq!(
        Diagnostic::KcovFailed(Err(String::from("f"))).cause(),
        Some(&String::from("f"))
    );
    assert!(Diagnostic::NoCoverallsId.cause().is_none());
    assert_eq!(
        Diagnostic::CannotFindTestTargets(Some(String::from("g"))).cause(),
        Some(&String::from("g"))
    );
    assert!(Diagnostic::CannotFindTestTargets(None).cause().is_none());
}

#[test]
fn utf8_failure_conversion_keeps_the_decode_error_text() {
    let bad = vec![0xffu8, 0xfe, 0xfd];
    let e = String::from_utf8(bad).unwrap_err();
    let expected = e.utf8_error().to_string();
    let d = Diagnostic::from_utf8_failure(e);
    assert!(matches!(d, Diagnostic::Utf8(_)));
    assert_eq!(d.cause(), Some(&expected));
    assert_eq!(d.description(), "output is not UTF-8 encoded");
}

#[test]
fn json_failure_conversion_keeps_the_parse_error_text() {
    let e = serde_json::from_str::<serde_json::Value>("{").unwrap_err();
    let expected = e.to_string();
    let d = Diagnostic::from_json_failure(e);
    assert!(matches!(d, Diagnostic::Json(Some(_))));
    assert_eq!(d.cause(), Some(&expected));
    assert_eq!(d.description(), "cannot parse JSON");
}

#[test]
fn cargo_note_is_verbatim() {
    let d = Diagnostic::Cargo {
        subcommand: String::from("bench"),
        status: String::from("signal: 9 (SIGKILL)"),
        stderr: vec![0x00, 0xff, b'!', 0x80],
    };
    let chunks = d.render(Platform::Linux);
    let bytes = written_bytes(&chunks);
    let mut expected = Vec::new();
    expected.extend_from_slice(b"cargo bench exited with code signal: 9 (SIGKILL)\n");
    expected.extend_from_slice(&[0x00, 0xff, b'!', 0x80]);
    assert!(
        bytes
            .windows(expected.len())
            .any(|w| w == expected.as_slice())
    );
    let raws: Vec<&Vec<u8>> = chunks
        .iter()
        .filter_map(|c| match c {
            Chunk::Raw(b) => Some(b),
            _ => None,
        })
        .collect();
    assert_eq!(raws, vec![&vec![0x00u8, 0xff, b'!', 0x80]]);
}

#[test]
fn headline_starts_with_bold_red_error_label() {
    let chunks = Diagnostic::NoCoverallsId.render(Platform::Linux);
    assert!(matches!(chunks[0], Chunk::Fg(Color::Red)));
    assert!(matches!(chunks[1], Chunk::Bold));
    assert!(matches!(&chunks[2], Chunk::Text(s) if s == "error: "));
    assert!(matches!(chunks[3], Chunk::Reset));
}

#[test]
fn install_guidance_for_too_old_kcov_on_linux() {
    let text = written_text(&Diagnostic::KcovTooOld.render(Platform::Linux));
    assert!(text.contains("kcov is too old. v30 or above is required."));
    assert!(text.contains(INSTALL_URL));
    assert!(text.contains("sudo apt-get install cmake g++ pkg-config jq\n\n"));
    assert!(text.contains(
        "sudo apt-get install libcurl4-openssl-dev libelf-dev libdw-dev binutils-dev libiberty-dev\n\n"
    ));
    assert!(text.ends_with(INSTALL_TRIGGER));
    assert_eq!(EXIT_CODE, 2);
}

#[test]
fn install_guidance_for_missing_kcov_on_macos() {
    let text = written_text(
        &Diagnostic::KcovNotInstalled(String::from("no such file")).render(Platform::MacOs),
    );
    assert!(text.contains("kcov not installed."));
    assert!(text.contains("caused by: no such file\n"));
    assert!(text.contains(INSTALL_URL));
    assert!(text.contains("brew install cmake jq\n\n"));
    assert!(!text.contains("sudo apt-get"));
    assert!(text.ends_with(INSTALL_TRIGGER));
}

#[test]
fn install_guidance_on_unsupported_platform_has_no_package_commands() {
    let text = written_text(&Diagnostic::KcovTooOld.render(Platform::Other));
    assert!(text.contains(INSTALL_URL));
    assert!(!text.contains("sudo apt-get"));
    assert!(!text.contains("brew install"));
    assert!(text.ends_with(INSTALL_TRIGGER));
}

#[test]
fn rebuild_guidance_for_missing_test_targets() {
    let text = written_text(&Diagnostic::CannotFindTestTargets(None).render(Platform::Linux));
    assert!(text.contains("cannot find test targets"));
    assert!(text.contains("try a clean rebuild first:\n\n"));
    assert!(text.ends_with(REBUILD_COMMANDS));
    assert!(!text.contains("caused by: "));
}

#[test]
fn rebuild_guidance_keeps_the_cause_when_present() {
    let text = written_text(
        &Diagnostic::CannotFindTestTargets(Some(String::from("not a directory")))
            .render(Platform::Linux),
    );
    assert!(text.contains("caused by: not a directory\n"));
    assert!(text.ends_with(REBUILD_COMMANDS));
}

#[test]
fn scenario_missing_upload_credential() {
    let d = Diagnostic::NoCoverallsId;
    assert_eq!(
        d.description(),
        "missing environment variable TRAVIS_JOB_ID for coveralls"
    );
    assert!(d.cause().is_none());
    let chunks = d.render(Platform::Linux);
    let text = written_text(&chunks);
    assert!(!text.contains("caused by: "));
    assert!(!text.contains("note: "));
    assert_eq!(chunks.len(), 6);
    assert_eq!(EXIT_CODE, 2);
}

#[test]
fn scenario_failed_cargo_test_subcommand() {
    let d = Diagnostic::Cargo {
        subcommand: String::from("test"),
        status: String::from("exit status: 101"),
        stderr: b"error[E0432]".to_vec(),
    };
    let chunks = d.render(Platform::Linux);
    let text = written_text(&chunks);
    let note = text.find("cargo test exited with code exit status: 101\n");
    assert!(note.is_some());
    let after = &text[note.unwrap()..];
    assert!(after.contains("error[E0432]"));
    assert_eq!(EXIT_CODE, 2);
}

#[test]
fn scenario_too_old_kcov_on_linux() {
    let d = Diagnostic::KcovTooOld;
    let text = written_text(&d.render(Platform::Linux));
    assert!(text.contains("kcov is too old. v30 or above is required."));
    assert!(text.contains(INSTALL_URL));
    let first = text.find("sudo apt-get install cmake g++ pkg-config jq\n\n");
    let second = text.find("sudo apt-get install libcurl4-openssl-dev");
    let trigger = text.find(INSTALL_TRIGGER);
    assert!(first.is_some() && second.is_some() && trigger.is_some());
    assert!(first.unwrap() < second.unwrap());
    assert!(second.unwrap() < trigger.unwrap());
    assert_eq!(EXIT_CODE, 2);
}

#[test]
fn scenario_json_parse_failure_without_parser_error() {
    let d = Diagnostic::Json(None);
    assert_eq!(d.description(), "cannot parse JSON");
    assert!(d.cause().is_none());
    let text = written_text(&d.render(Platform::Linux));
    assert!(text.contains("cannot parse JSON"));
    assert!(!text.contains("caused by: "));
}
