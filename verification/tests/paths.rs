use openfrp_launcher::paths::{get_app_dir, get_config_path, AppDirs};

#[test]
fn app_dir_is_what_it_was_made_with() {
    let dirs = AppDirs::new("/home/u/.local/share/launcher".to_string());
    assert_eq!(get_app_dir(&dirs), "/home/u/.local/share/launcher");
}

#[test]
fn config_path_is_in_the_app_dir() {
    let dirs = AppDirs::new("/data/app".to_string());
    assert_eq!(get_config_path(&dirs), Ok("/data/app/config.json".to_string()));
}

#[test]
fn path_of_a_name() {
    let dirs = AppDirs::new("C:/Users/u/AppData/Local/launcher".to_string());
    assert_eq!(
        dirs.path_of("frpc_windows_amd64.exe"),
        "C:/Users/u/AppData/Local/launcher/frpc_windows_amd64.exe"
    );
    assert_eq!(dirs.path_of("frpc_linux_amd6464/frpc"), "C:/Users/u/AppData/Local/launcher/frpc_linux_amd6464/frpc");
}

#[test]
fn directories_to_create() {
    let dirs = AppDirs::new("/data/app".to_string());
    assert_eq!(
        dirs.directories(),
        vec!["/data/app".to_string(), "/data/app/frpc".to_string(), "/data/app/config".to_string()]
    );
}
