use minmux::cli::{default_socket_path, home_directory, keep_waiting, run, Command, Options, SOCKET_POLLS};

#[test]
fn default_command_attaches_to_main() {
    match run(Options { command: None }) {
        Command::Attach { session } => assert_eq!(session, "main"),
        _ => panic!("expected attach"),
    }
    match run(Options { command: Some(Command::Daemon { socket: "/tmp/s".to_string() }) }) {
        Command::Daemon { socket } => assert_eq!(socket, "/tmp/s"),
        _ => panic!("expected daemon"),
    }
}

#[test]
fn socket_paths() {
    assert_eq!(
        default_socket_path(Some("/run/user/1000".to_string()), Some("/home/a".to_string())),
        "/run/user/1000/minmux/minmux.sock"
    );
    assert_eq!(default_socket_path(None, Some("/home/a".to_string())), "/home/a/.local/run/minmux/minmux.sock");
    assert_eq!(default_socket_path(None, None), "/tmp/.local/run/minmux/minmux.sock");
    assert_eq!(home_directory(None), "/tmp");
    assert_eq!(home_directory(Some("/root".to_string())), "/root");
}

#[test]
fn waiting_for_the_socket() {
    assert!(keep_waiting(0, false));
    assert!(!keep_waiting(0, true));
    assert!(keep_waiting(SOCKET_POLLS - 1, false));
    assert!(!keep_waiting(SOCKET_POLLS, false));
}
