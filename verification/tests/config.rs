use tauri_runtime_verso::config::command_file_name;
use tauri_runtime_verso::{
    get_verso_devtools_port, get_verso_path, get_verso_resource_directory,
    set_verso_devtools_port, set_verso_path, set_verso_resource_directory, ConfigError,
    VersoConfig,
};

#[test]
fn new_config_has_nothing_set() {
    let config = VersoConfig::new();
    assert_eq!(get_verso_path(&config), None);
    assert_eq!(get_verso_resource_directory(&config), None);
    assert_eq!(get_verso_devtools_port(&config), None);
}

#[test]
fn verso_path_is_set_once() {
    let mut config = VersoConfig::new();
    assert_eq!(set_verso_path(&mut config, String::from("../verso/versoview")), Ok(()));
    assert_eq!(get_verso_path(&config), Some("../verso/versoview"));
    assert_eq!(
        set_verso_path(&mut config, String::from("/elsewhere")),
        Err(ConfigError::AlreadySet)
    );
    assert_eq!(get_verso_path(&config), Some("../verso/versoview"));
    assert_eq!(get_verso_resource_directory(&config), None);
    assert_eq!(get_verso_devtools_port(&config), None);
}

#[test]
fn resource_directory_is_set_once() {
    let mut config = VersoConfig::new();
    assert_eq!(set_verso_resource_directory(&mut config, String::from("../resources")), Ok(()));
    assert_eq!(get_verso_resource_directory(&config), Some("../resources"));
    assert_eq!(
        set_verso_resource_directory(&mut config, String::from("/elsewhere")),
        Err(ConfigError::AlreadySet)
    );
    assert_eq!(get_verso_resource_directory(&config), Some("../resources"));
    assert_eq!(get_verso_path(&config), None);
}

#[test]
fn devtools_port_is_set_once() {
    let mut config = VersoConfig::new();
    assert_eq!(set_verso_devtools_port(&mut config, 0), Ok(()));
    assert_eq!(get_verso_devtools_port(&config), Some(0));
    assert_eq!(set_verso_devtools_port(&mut config, 1234), Err(ConfigError::AlreadySet));
    assert_eq!(get_verso_devtools_port(&config), Some(0));
}

#[test]
fn settings_do_not_disturb_each_other() {
    let mut config = VersoConfig::new();
    assert_eq!(set_verso_devtools_port(&mut config, 1234), Ok(()));
    assert_eq!(set_verso_path(&mut config, String::from("a")), Ok(()));
    assert_eq!(set_verso_resource_directory(&mut config, String::from("b")), Ok(()));
    assert_eq!(get_verso_path(&config), Some("a"));
    assert_eq!(get_verso_resource_directory(&config), Some("b"));
    assert_eq!(get_verso_devtools_port(&config), Some(1234));
}

#[test]
fn command_file_name_has_exe_on_windows_only() {
    assert_eq!(command_file_name("versoview", false), "versoview");
    assert_eq!(command_file_name("versoview", true), "versoview.exe");
}
