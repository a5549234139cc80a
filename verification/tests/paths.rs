use std::path::PathBuf;
use webp_converter::path::{replace_extension, resolve_output_path, target_extension_text, Separators};

/// The separators of the platform that the tests run on.
fn native() -> Separators {
    if std::path::is_separator('\\') {
        Separators::SlashOrBackslash
    } else {
        Separators::Slash
    }
}

fn std_set_extension(path: &str, extension: &str) -> String {
    let mut buffer = PathBuf::from(path);
    buffer.set_extension(extension);
    buffer.to_str().expect("a path made from text is text").to_string()
}

const PATHS: [&str; 48] = [
    "",
    "/",
    "//",
    ".",
    "..",
    "...",
    "./",
    "../",
    "/.",
    "/..",
    "./.",
    "a",
    "a.",
    "a..",
    "a.b",
    "a.b.c",
    ".a",
    ".a.b",
    "..a",
    "a/",
    "a//",
    "a/.",
    "a/./",
    "a/./.",
    "a/..",
    "a/../",
    "a.b/",
    "a.b/.",
    "a.b//./",
    "clip.mp4",
    "clip",
    "/videos/clip.mp4",
    "/videos/clip",
    "/videos/clip.final.mov",
    "/videos.old/clip",
    "/videos.old/clip.avi",
    "videos/.hidden",
    "videos/.hidden.mkv",
    "relative/dir/clip.MP4",
    "./clip.mp4",
    "../clip.mp4",
    "dir/./clip.mp4",
    "dir/../clip.mp4",
    "clip.mp4/",
    "with space/my clip.mp4",
    "vid\u{e9}o/cl\u{ee}p.mp4",
    "\u{65e5}\u{672c}\u{8a9e}.\u{52d5}\u{753b}",
    "clip.webp",
];

#[test]
fn replace_extension_agrees_with_std_paths() {
    for path in PATHS.iter() {
        assert_eq!(
            replace_extension(native(), path, "webp"),
            std_set_extension(path, "webp"),
            "for {:?}",
            path
        );
    }
}

#[test]
fn replace_extension_with_nothing_agrees_with_std_paths() {
    for path in PATHS.iter() {
        assert_eq!(
            replace_extension(native(), path, ""),
            std_set_extension(path, ""),
            "for {:?}",
            path
        );
    }
}

#[test]
fn replace_extension_uses_a_dotted_extension_whole() {
    assert_eq!(replace_extension(Separators::Slash, "clip.mp4", "tar.gz"), "clip.tar.gz");
    assert_eq!(std_set_extension("clip.mp4", "tar.gz"), "clip.tar.gz");
}

#[test]
fn replace_extension_replaces_only_the_last_extension() {
    assert_eq!(replace_extension(Separators::Slash, "/v/clip.final.mov", "webp"), "/v/clip.final.webp");
}

#[test]
fn replace_extension_adds_to_a_name_without_extension() {
    assert_eq!(replace_extension(Separators::Slash, "/v/clip", "webp"), "/v/clip.webp");
    assert_eq!(replace_extension(Separators::Slash, "clip.", "webp"), "clip.webp");
    assert_eq!(replace_extension(Separators::Slash, ".hidden", "webp"), ".hidden.webp");
}

#[test]
fn replace_extension_ignores_dots_in_directories() {
    assert_eq!(replace_extension(Separators::Slash, "/videos.old/clip", "webp"), "/videos.old/clip.webp");
}

#[test]
fn replace_extension_leaves_a_path_without_file_name() {
    assert_eq!(replace_extension(Separators::Slash, "", "webp"), "");
    assert_eq!(replace_extension(Separators::Slash, "/", "webp"), "/");
    assert_eq!(replace_extension(Separators::Slash, "..", "webp"), "..");
    assert_eq!(replace_extension(Separators::Slash, "a/..", "webp"), "a/..");
    assert_eq!(replace_extension(Separators::Slash, "./", "webp"), "./");
}

#[test]
fn replace_extension_drops_what_trails_the_file_name() {
    assert_eq!(replace_extension(Separators::Slash, "clip.mp4/", "webp"), "clip.webp");
    assert_eq!(replace_extension(Separators::Slash, "dir/clip/.", "webp"), "dir/clip.webp");
}

#[test]
fn target_extension_is_webp() {
    assert_eq!(target_extension_text(), "webp");
}

#[test]
fn given_output_path_is_used_verbatim() {
    let given = String::from("/elsewhere/out.gif");
    assert_eq!(resolve_output_path(Separators::Slash, "/videos/clip.mp4", Some(given)), "/elsewhere/out.gif");
    assert_eq!(resolve_output_path(Separators::Slash, "/videos/clip.mp4", Some(String::new())), "");
    assert_eq!(resolve_output_path(Separators::Slash, "clip.mp4", Some(String::from("no extension/"))), "no extension/");
}

#[test]
fn missing_output_path_is_derived_from_the_input() {
    assert_eq!(resolve_output_path(Separators::Slash, "/videos/clip.mp4", None), "/videos/clip.webp");
    assert_eq!(resolve_output_path(Separators::Slash, "clip.MOV", None), "clip.webp");
    assert_eq!(resolve_output_path(Separators::Slash, "clip", None), "clip.webp");
    assert_eq!(resolve_output_path(Separators::Slash, "clip.", None), "clip.webp");
    assert_eq!(resolve_output_path(Separators::Slash, "a.b/clip.tar.gz", None), "a.b/clip.tar.webp");
    assert_eq!(resolve_output_path(Separators::Slash, "clip.webp", None), "clip.webp");
}

#[test]
fn derived_output_path_agrees_with_std_paths() {
    for path in PATHS.iter() {
        assert_eq!(resolve_output_path(native(), path, None), std_set_extension(path, "webp"));
    }
}

#[test]
fn backslash_is_text_where_only_slash_separates() {
    assert_eq!(
        replace_extension(Separators::Slash, "C:\\videos.old\\clip", "webp"),
        "C:\\videos.webp"
    );
    assert_eq!(replace_extension(Separators::Slash, "a\\b.mp4", "webp"), "a\\b.webp");
    assert_eq!(replace_extension(Separators::Slash, "dir/a.b\\", "webp"), "dir/a.webp");
}

#[test]
fn backslash_separates_where_it_is_asked_to() {
    let both = Separators::SlashOrBackslash;
    assert_eq!(
        replace_extension(both, "C:\\videos.old\\clip", "webp"),
        "C:\\videos.old\\clip.webp"
    );
    assert_eq!(
        replace_extension(both, "C:\\Users\\me\\clip.mp4", "webp"),
        "C:\\Users\\me\\clip.webp"
    );
    assert_eq!(replace_extension(both, "C:/Users\\me/clip.final.mp4", "webp"), "C:/Users\\me/clip.final.webp");
    assert_eq!(replace_extension(both, "dir\\clip.mp4\\", "webp"), "dir\\clip.webp");
    assert_eq!(replace_extension(both, "dir\\clip.mp4\\.\\", "webp"), "dir\\clip.webp");
    assert_eq!(replace_extension(both, "dir\\..", "webp"), "dir\\..");
    assert_eq!(replace_extension(both, "\\", "webp"), "\\");
    assert_eq!(replace_extension(both, "dir\\.hidden", "webp"), "dir\\.hidden.webp");
    assert_eq!(resolve_output_path(both, "D:\\in.dir\\clip", None), "D:\\in.dir\\clip.webp");
}

#[test]
fn slash_paths_read_the_same_under_both_separator_sets() {
    for path in PATHS.iter() {
        assert_eq!(
            replace_extension(Separators::Slash, path, "webp"),
            replace_extension(Separators::SlashOrBackslash, path, "webp")
        );
    }
}
