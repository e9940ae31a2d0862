use hachimi::ios::game_impl::{get_data_dir, get_package_name};
use hachimi::ios::gui_impl::input_hook::{on_send_event, SendEventRoute};
use hachimi::ios::hachimi_impl::{is_criware_lib, is_il2cpp_lib};
use hachimi::ios::hook::find_image;
use hachimi::ios::utils::{get_config_path, get_log_path};
use hachimi::path::join_path;

#[test]
fn recognises_il2cpp_library() {
    assert!(is_il2cpp_lib("/private/var/containers/Bundle/Application/X/umamusume.app/Frameworks/GameAssembly.framework/GameAssembly"));
    assert!(is_il2cpp_lib("/x/libil2cpp.dylib"));
    assert!(!is_il2cpp_lib("/x/libil2cpp.dylib.bak"));
    assert!(!is_il2cpp_lib("/x/UnityFramework"));
    assert!(!is_il2cpp_lib(""));
}

#[test]
fn recognises_criware_library() {
    assert!(is_criware_lib("/x/libcri_ware_unity.dylib"));
    assert!(is_criware_lib("/x/cri_ware.framework/cri_ware"));
    assert!(!is_criware_lib("/x/cri-ware"));
}

#[test]
fn package_name() {
    assert_eq!(get_package_name(), "jp.co.cygames.umamusume");
}

#[test]
fn data_dir_under_home_documents() {
    assert_eq!(
        get_data_dir("ignored", Some("/var/mobile/Containers/Data/Application/ABC")),
        "/var/mobile/Containers/Data/Application/ABC/Documents/hachimi"
    );
    assert_eq!(get_data_dir("", None), "/var/mobile/Documents/hachimi");
    assert_eq!(get_data_dir("", Some("/home/")), "/home/Documents/hachimi");
    assert_eq!(get_data_dir("", Some("")), "Documents/hachimi");
}

#[test]
fn log_and_config_paths() {
    assert_eq!(get_log_path(None), "/var/mobile/Documents/hachimi/hachimi.log");
    assert_eq!(get_config_path(Some("/h")), "/h/Documents/hachimi/config.json");
}

#[test]
fn join_path_like_pathbuf() {
    assert_eq!(join_path("/a", "b"), "/a/b");
    assert_eq!(join_path("/a/", "b"), "/a/b");
    assert_eq!(join_path("", "b"), "b");
    assert_eq!(join_path("/a", "/b"), "/b");
    assert_eq!(join_path("/a", ""), "/a/");
}

#[test]
fn finds_loaded_image() {
    let headers = [0x1000usize, 0x2000, 0x3000, 0x2000];
    assert_eq!(find_image(&headers, 0x2000), Some(1));
    assert_eq!(find_image(&headers, 0x3000), Some(2));
    assert_eq!(find_image(&headers, 0x4000), None);
    assert_eq!(find_image(&[], 0x1000), None);
}

#[test]
fn touch_events_route() {
    assert_eq!(on_send_event(false, 1, 2), SendEventRoute::PassToGame);
    assert_eq!(on_send_event(true, 1, 2), SendEventRoute::ToGui);
}
