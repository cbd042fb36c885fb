use pesto::bridge::{
    api_root_name, bundled_lib_key, bundled_libs, choose_directory, entry_script_path,
    is_script_file, module_search_entry, update_callback_key, BundledLib,
};
use pesto::overlay::split_lines;
use pesto::provision::{provision, ToolFile};

#[test]
fn tool_extraction_is_idempotent() {
    let mut file = ToolFile { present: false, content: Vec::new() };
    let blob: Vec<u8> = vec![0x4d, 0x5a, 0x90, 0x00];
    let wrote = provision(&mut file, &blob);
    assert!(wrote);
    assert!(file.present);
    assert_eq!(file.content, blob);
    // A second run never rewrites the already-extracted tool.
    let wrote_again = provision(&mut file, &blob);
    assert!(!wrote_again);
    assert_eq!(file.content, blob);
}

#[test]
fn existing_tool_is_left_untouched() {
    let mut file = ToolFile { present: true, content: vec![1, 2, 3] };
    let wrote = provision(&mut file, &vec![9, 9, 9]);
    assert!(!wrote);
    assert_eq!(file.content, vec![1, 2, 3]);
}

#[test]
fn well_known_names() {
    assert_eq!(api_root_name(), "pesto");
    assert_eq!(update_callback_key(), "update");
}

#[test]
fn bundled_library_plan_is_fixed() {
    let libs = bundled_libs();
    assert_eq!(libs.len(), 8);
    let keys: Vec<&str> = libs.iter().map(|l| bundled_lib_key(*l)).collect();
    assert_eq!(
        keys,
        vec!["collision", "Object", "tween", "inspect", "json", "utils", "timer", "ecs"]
    );
    assert_eq!(bundled_lib_key(BundledLib::Object), "Object");
}

#[test]
fn directory_argument_handling_is_lenient() {
    let two = vec!["pesto".to_string(), "games/demo".to_string()];
    assert_eq!(choose_directory(&two), "games/demo");
    let one = vec!["pesto".to_string()];
    assert_eq!(choose_directory(&one), ".");
    let three = vec!["pesto".to_string(), "a".to_string(), "b".to_string()];
    assert_eq!(choose_directory(&three), ".");
}

#[test]
fn paths_are_built_from_the_directory() {
    assert_eq!(entry_script_path("games/demo"), "games/demo/main.lua");
    assert_eq!(entry_script_path("."), "./main.lua");
    assert_eq!(module_search_entry("."), "./?.lua");
}

#[test]
fn script_files_are_recognized_by_extension() {
    assert!(is_script_file("main.lua"));
    assert!(is_script_file("games/demo/player.lua"));
    assert!(is_script_file("a.b.lua"));
    assert!(!is_script_file(".lua"));
    assert!(!is_script_file("games/.lua"));
    assert!(!is_script_file("readme.txt"));
    assert!(!is_script_file("lua"));
    assert!(!is_script_file("main.luac"));
}

#[test]
fn overlay_rows_follow_the_message_lines() {
    let msg = b"line one\nline two\r\nlast";
    let spans = split_lines(msg);
    assert_eq!(spans, vec![(0, 8), (9, 17), (19, 23)]);
    let texts: Vec<&[u8]> = spans.iter().map(|&(a, b)| &msg[a..b]).collect();
    assert_eq!(texts, vec![&b"line one"[..], &b"line two"[..], &b"last"[..]]);
}

#[test]
fn overlay_rows_edge_cases() {
    assert_eq!(split_lines(b""), Vec::<(usize, usize)>::new());
    assert_eq!(split_lines(b"ab\n"), vec![(0, 2)]);
    assert_eq!(split_lines(b"\n\n"), vec![(0, 0), (1, 1)]);
    assert_eq!(split_lines(b"one"), vec![(0, 3)]);
}
