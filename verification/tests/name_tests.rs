use mrpack_downloader::text::{resolve_mod_name, str_eq};

#[test]
fn name_from_nested_path() {
    assert_eq!(resolve_mod_name("mods/foo.jar"), "foo.jar");
    assert_eq!(resolve_mod_name("a/b/c/d.jar"), "d.jar");
}

#[test]
fn name_from_bare_file() {
    assert_eq!(resolve_mod_name("foo.jar"), "foo.jar");
}

#[test]
fn name_ignores_trailing_separators() {
    assert_eq!(resolve_mod_name("mods/foo.jar/"), "foo.jar");
    assert_eq!(resolve_mod_name("mods///"), "mods");
}

#[test]
fn name_placeholder_when_no_segment() {
    assert_eq!(resolve_mod_name(""), "Unknown Mod");
    assert_eq!(resolve_mod_name("/"), "Unknown Mod");
    assert_eq!(resolve_mod_name("///"), "Unknown Mod");
}

#[test]
fn name_placeholder_for_dot_segments() {
    assert_eq!(resolve_mod_name("."), "Unknown Mod");
    assert_eq!(resolve_mod_name("./."), "Unknown Mod");
    assert_eq!(resolve_mod_name(".."), "Unknown Mod");
    assert_eq!(resolve_mod_name("mods/.."), "Unknown Mod");
}

#[test]
fn name_skips_trailing_dot_segments() {
    assert_eq!(resolve_mod_name("a/."), "a");
    assert_eq!(resolve_mod_name("foo.txt/."), "foo.txt");
    assert_eq!(resolve_mod_name("mods/./"), "mods");
    assert_eq!(resolve_mod_name("mods/./."), "mods");
}

#[test]
fn name_keeps_hidden_files() {
    assert_eq!(resolve_mod_name("mods/.hidden"), ".hidden");
    assert_eq!(resolve_mod_name("..."), "...");
}

#[test]
fn str_eq_compares_contents() {
    assert!(str_eq("", ""));
    assert!(str_eq("abc", "abc"));
    assert!(!str_eq("abc", "abd"));
    assert!(!str_eq("abc", "ab"));
    assert!(str_eq("naïve✓", "naïve✓"));
    assert!(!str_eq("naïve✓", "naive✓"));
}
