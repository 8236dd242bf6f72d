//! Whole-command scenarios: dispatch, path work and reporting chained as the
//! binary chains them, with the filesystem and server answers given as values.

use cli_transfer::args::{parse_args, Command};
use cli_transfer::paths::{resolve_destination, upload_remote_name, DestinationState};
use cli_transfer::response::{download_body_decision, upload_report};

fn argv(parts: &[&str]) -> Vec<String> {
    parts.iter().map(|p| p.to_string()).collect()
}

#[test]
fn download_into_existing_directory_scenario() {
    let command = parse_args(&argv(&["prog", "download", "photo.png", "/tmp/"])).unwrap();
    let (remote, dest) = match command {
        Command::Download { remote, dest } => (remote, dest),
        _ => panic!("expected a download"),
    };
    let target = resolve_destination(&remote, &dest, DestinationState::Directory);
    assert_eq!(target, "/tmp/photo.png");
    let written = download_body_decision(200, b"bytes".to_vec()).unwrap();
    assert_eq!(written, b"bytes".to_vec());
}

#[test]
fn download_to_fresh_file_scenario() {
    let command = parse_args(&argv(&["prog", "download", "photo.png", "/tmp/out.bin"])).unwrap();
    let (remote, dest) = match command {
        Command::Download { remote, dest } => (remote, dest),
        _ => panic!("expected a download"),
    };
    let target = resolve_destination(&remote, &dest, DestinationState::Missing);
    assert_eq!(target, "/tmp/out.bin");
}

#[test]
fn failed_download_writes_nothing_scenario() {
    let r = download_body_decision(503, b"an error page".to_vec());
    assert!(r.is_err());
}

#[test]
fn upload_confirmation_scenario() {
    let command = parse_args(&argv(&["prog", "upload", "./notes.txt"])).unwrap();
    let local = match command {
        Command::Upload { local } => local,
        _ => panic!("expected an upload"),
    };
    assert_eq!(upload_remote_name(&local), "notes.txt");
    let report = upload_report(201, "ok");
    assert!(report.starts_with("File uploaded successfully!"));
    assert!(report.contains("ok"));
}
