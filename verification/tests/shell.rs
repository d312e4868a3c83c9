use desktop_shell::logline::{quote_path, startup_log_line};
use desktop_shell::lookup::{command_reply, DirLookup};
use desktop_shell::startup::{command_names, plugin_names};

#[test]
fn reply_carries_the_path_on_success() {
    let lookup = DirLookup::Found(String::from("/home/user/.local/share/app"));
    assert_eq!(
        command_reply(lookup),
        Ok(String::from("/home/user/.local/share/app"))
    );
}

#[test]
fn reply_carries_the_message_on_failure() {
    let lookup = DirLookup::Failed(String::from("unknown path"));
    assert_eq!(command_reply(lookup), Err(String::from("unknown path")));
}

#[test]
fn reply_keeps_an_empty_path_empty() {
    let lookup = DirLookup::Found(String::new());
    assert_eq!(command_reply(lookup), Ok(String::new()));
}

#[test]
fn quote_path_wraps_in_quotes() {
    assert_eq!(quote_path("/tmp/data"), "\"/tmp/data\"");
}

#[test]
fn quote_path_on_empty_path() {
    assert_eq!(quote_path(""), "\"\"");
}

#[test]
fn quote_path_escapes_backslashes() {
    assert_eq!(quote_path("C:\\Users\\me"), "\"C:\\\\Users\\\\me\"");
}

#[test]
fn quote_path_escapes_quotes() {
    assert_eq!(quote_path("a\"b"), "\"a\\\"b\"");
}

#[test]
fn quote_path_keeps_non_ascii_text() {
    assert_eq!(quote_path("/home/usér/ダタ"), "\"/home/usér/ダタ\"");
}

#[test]
fn startup_logs_the_found_directory() {
    let lookup = DirLookup::Found(String::from("/home/user/.local/share/app"));
    assert_eq!(
        startup_log_line(&lookup),
        Some(String::from(
            "App data directory: \"/home/user/.local/share/app\""
        ))
    );
}

#[test]
fn startup_log_escapes_the_path() {
    let lookup = DirLookup::Found(String::from("C:\\Users\\me"));
    assert_eq!(
        startup_log_line(&lookup),
        Some(String::from("App data directory: \"C:\\\\Users\\\\me\""))
    );
}

#[test]
fn startup_swallows_a_failed_lookup() {
    let lookup = DirLookup::Failed(String::from("unknown path"));
    assert_eq!(startup_log_line(&lookup), None);
}

#[test]
fn the_three_plugins_in_registration_order() {
    assert_eq!(plugin_names(), vec!["fs", "shell", "dialog"]);
}

#[test]
fn the_two_commands_in_registration_order() {
    assert_eq!(command_names(), vec!["get_app_data_dir", "get_document_dir"]);
}
