use filetype::dispatch::{
    classify, distinct_paths, pool_width, probes_for, render, select_mode, ConfigError, Findings, Mode,
    MimeBackend, Probes, Report,
};
use filetype::file_system::FileFacts;

fn nothing_found() -> Findings {
    Findings { first_line: None, facts: None, head: None, is_dir: false }
}

fn regular_file() -> FileFacts {
    FileFacts {
        is_symlink: false,
        link_is_symlink: false,
        is_block_device: false,
        is_char_device: false,
        is_fifo: false,
        is_socket: false,
        is_dir: false,
        is_file: true,
        rdev: None,
        link_target: None,
    }
}

fn info(r: Report) -> String {
    match r {
        Report::Info(s) => s,
        _ => panic!("not a description"),
    }
}

fn strings(v: &[&str]) -> Vec<String> {
    v.iter().map(|s| s.to_string()).collect()
}

#[test]
fn duplicates_are_looked_at_once() {
    let paths = strings(&["a", "b", "a"]);
    let plan = distinct_paths(&paths);
    assert_eq!(plan, strings(&["a", "b"]));
    let lines: Vec<String> = plan
        .iter()
        .map(|p| {
            let r = classify(p, Mode::Extension, MimeBackend::ByExtension, true, &nothing_found());
            render(p, ":", false, &r).text
        })
        .collect();
    assert_eq!(lines.len(), 2);
}

#[test]
fn first_seen_order_is_kept() {
    let paths = strings(&["c", "a", "c", "b", "a", "c"]);
    assert_eq!(distinct_paths(&paths), strings(&["c", "a", "b"]));
    assert_eq!(distinct_paths(&Vec::new()), Vec::<String>::new());
}

#[test]
fn missing_path_is_not_classified() {
    let probes = probes_for(Mode::FileType, MimeBackend::ByExtension, false);
    assert_eq!(
        probes,
        Probes { first_line: false, metadata: false, head: false, is_dir: false }
    );
    let r = classify("/no/such/file", Mode::FileType, MimeBackend::ByExtension, false, &nothing_found());
    assert!(matches!(r, Report::CannotOpen));
    let line = render("/no/such/file", ":", false, &r);
    assert!(line.to_stderr);
    assert_eq!(
        line.text,
        "/no/such/file  : cannot open '/no/such/file' (No such file, directory or flag)"
    );
    let brief = render("/no/such/file", ":", true, &r);
    assert_eq!(
        brief.text,
        "cannot open '/no/such/file' (No such file, directory or flag)"
    );
}

#[test]
fn probes_by_mode() {
    assert_eq!(
        probes_for(Mode::FileType, MimeBackend::BySignature, true),
        Probes { first_line: true, metadata: true, head: false, is_dir: false }
    );
    assert_eq!(
        probes_for(Mode::MimeType, MimeBackend::ByExtension, true),
        Probes { first_line: false, metadata: false, head: false, is_dir: true }
    );
    assert_eq!(
        probes_for(Mode::MimeType, MimeBackend::BySignature, true),
        Probes { first_line: false, metadata: false, head: true, is_dir: true }
    );
    assert_eq!(
        probes_for(Mode::Extension, MimeBackend::BySignature, true),
        Probes { first_line: false, metadata: false, head: false, is_dir: false }
    );
}

#[test]
fn script_and_type_are_joined() {
    let found = Findings {
        first_line: Some("#!/bin/bash\n".to_string()),
        facts: Some(regular_file()),
        head: None,
        is_dir: false,
    };
    let r = classify("run.sh", Mode::FileType, MimeBackend::ByExtension, true, &found);
    assert_eq!(info(r), "Bourne-Again shell script, ASCII text");
}

#[test]
fn plain_file_is_ascii_text() {
    let found = Findings {
        first_line: Some("hello\n".to_string()),
        facts: Some(regular_file()),
        head: None,
        is_dir: false,
    };
    let r = classify("notes", Mode::FileType, MimeBackend::ByExtension, true, &found);
    assert_eq!(info(r), "ASCII text");
    let unreadable = Findings { first_line: None, ..found };
    let r = classify("notes", Mode::FileType, MimeBackend::ByExtension, true, &unreadable);
    assert_eq!(info(r), "ASCII text");
}

#[test]
fn symlink_to_directory_is_a_link() {
    let link = FileFacts {
        is_file: false,
        is_dir: true,
        link_is_symlink: true,
        link_target: Some("/tmp".to_string()),
        ..regular_file()
    };
    let found = Findings { first_line: None, facts: Some(link), head: None, is_dir: true };
    let r = classify("tmp-link", Mode::FileType, MimeBackend::ByExtension, true, &found);
    assert_eq!(info(r), "symbolic link to /tmp");
}

#[test]
fn unreadable_metadata_is_an_error() {
    let r = classify("x", Mode::FileType, MimeBackend::ByExtension, true, &nothing_found());
    assert!(matches!(r, Report::MetadataUnreadable));
    let line = render("x", ":", true, &r);
    assert!(line.to_stderr);
    assert_eq!(line.text, "cannot read metadata of 'x'");
}

#[test]
fn repeated_classification_is_identical() {
    let found = Findings {
        first_line: Some("#!/usr/bin/env python3\n".to_string()),
        facts: Some(regular_file()),
        head: None,
        is_dir: false,
    };
    let a = info(classify("t.py", Mode::FileType, MimeBackend::ByExtension, true, &found));
    let b = info(classify("t.py", Mode::FileType, MimeBackend::ByExtension, true, &found));
    assert_eq!(a, b);
    assert_eq!(a, "Python script, ASCII text");
}

#[test]
fn extension_and_mime_modes() {
    let r = classify("archive.tar.gz", Mode::Extension, MimeBackend::ByExtension, true, &nothing_found());
    assert_eq!(info(r), "gz");
    let r = classify("README", Mode::Extension, MimeBackend::ByExtension, true, &nothing_found());
    assert_eq!(info(r), "???");
    let r = classify("Cargo.toml", Mode::MimeType, MimeBackend::ByExtension, true, &nothing_found());
    assert_eq!(info(r), "text/x-toml");
    let dir = Findings { is_dir: true, ..nothing_found() };
    let r = classify("src", Mode::MimeType, MimeBackend::BySignature, true, &dir);
    assert_eq!(info(r), "inode/directory");
}

#[test]
fn full_and_brief_lines() {
    let r = Report::Info("directory".to_string());
    let line = render("src", ":", false, &r);
    assert!(!line.to_stderr);
    assert_eq!(line.text, "src            : directory      ");
    assert_eq!(render("src", " =>", true, &r).text, "directory");
    let long = Report::Info("Bourne-Again shell script, ASCII text".to_string());
    assert_eq!(
        render("a-rather-long-name.sh", "|", false, &long).text,
        "a-rather-long-name.sh| Bourne-Again shell script, ASCII text"
    );
}

#[test]
fn run_configuration() {
    assert_eq!(pool_width(0, None), Err(ConfigError::NoPaths));
    assert_eq!(pool_width(0, Some(4)), Err(ConfigError::NoPaths));
    assert_eq!(pool_width(2, Some(-1)), Err(ConfigError::InvalidJobs));
    assert_eq!(pool_width(2, Some(4)), Ok(4));
    assert_eq!(pool_width(2, Some(0)), Ok(0));
    assert_eq!(pool_width(2, None), Ok(0));
}

#[test]
fn mode_from_flags() {
    assert_eq!(select_mode(true, true), Mode::MimeType);
    assert_eq!(select_mode(true, false), Mode::MimeType);
    assert_eq!(select_mode(false, true), Mode::Extension);
    assert_eq!(select_mode(false, false), Mode::FileType);
}
