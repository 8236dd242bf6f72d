use cli_transfer::args::{parse_args, Command};
use cli_transfer::TransferError;

fn argv(parts: &[&str]) -> Vec<String> {
    parts.iter().map(|p| p.to_string()).collect()
}

#[test]
fn no_arguments_lists() {
    let r = parse_args(&argv(&["prog"])).unwrap();
    assert!(matches!(r, Command::List));
}

#[test]
fn list_aliases() {
    assert!(matches!(parse_args(&argv(&["prog", "list"])).unwrap(), Command::List));
    assert!(matches!(parse_args(&argv(&["prog", "l"])).unwrap(), Command::List));
}

#[test]
fn unrecognized_argument_lists() {
    let r = parse_args(&argv(&["prog", "frobnicate"])).unwrap();
    assert!(matches!(r, Command::List));
}

#[test]
fn download_with_destination() {
    let r = parse_args(&argv(&["prog", "download", "photo.png", "/tmp/out.bin"])).unwrap();
    match r {
        Command::Download { remote, dest } => {
            assert_eq!(remote, "photo.png");
            assert_eq!(dest, "/tmp/out.bin");
        }
        _ => panic!("expected a download"),
    }
}

#[test]
fn download_falls_back_to_default_directory() {
    let r = parse_args(&argv(&["prog", "d", "photo.png"])).unwrap();
    match r {
        Command::Download { remote, dest } => {
            assert_eq!(remote, "photo.png");
            assert_eq!(dest, "/home/polyface/Desktop/transfer/");
        }
        _ => panic!("expected a download"),
    }
}

#[test]
fn download_without_name_is_an_argument_error() {
    let r = parse_args(&argv(&["prog", "download"]));
    assert_eq!(r.unwrap_err(), TransferError::Argument);
}

#[test]
fn upload_aliases_and_operand() {
    match parse_args(&argv(&["prog", "upload", "./notes.txt"])).unwrap() {
        Command::Upload { local } => assert_eq!(local, "./notes.txt"),
        _ => panic!("expected an upload"),
    }
    match parse_args(&argv(&["prog", "u", "a"])).unwrap() {
        Command::Upload { local } => assert_eq!(local, "a"),
        _ => panic!("expected an upload"),
    }
}

#[test]
fn upload_without_operand_is_an_argument_error() {
    assert_eq!(parse_args(&argv(&["prog", "u"])).unwrap_err(), TransferError::Argument);
}

#[test]
fn delete_aliases_and_operand() {
    match parse_args(&argv(&["prog", "delete", "old.bin"])).unwrap() {
        Command::Delete { remote } => assert_eq!(remote, "old.bin"),
        _ => panic!("expected a delete"),
    }
    match parse_args(&argv(&["prog", "de", "old.bin"])).unwrap() {
        Command::Delete { remote } => assert_eq!(remote, "old.bin"),
        _ => panic!("expected a delete"),
    }
}

#[test]
fn delete_without_operand_is_an_argument_error() {
    assert_eq!(parse_args(&argv(&["prog", "delete"])).unwrap_err(), TransferError::Argument);
}
