use fyla::paths::{extension, extension_in_name, file_stem, stem_in_name};
use std::path::Path;

const SAMPLES: [&str; 40] = [
    "", ".", "..", "...", "/", "a", "a.", ".a", "..a", "a..", "a.b", "a.b.c", ".a.b", "a/b.c",
    "a.b/c", "a.b/", "a.b/.", "a.b/..", "/x/y/report.PDF", "dir.d/file", "dir.d/.hidden",
    "dir.d/.hidden.txt", "archive.tar.gz", "name with spaces.txt", "中文.文档", "./a.txt",
    "../a.txt", "a/./b.md", "a//b.md", "a/b.md/", "trailing.dot.", ".", "a/..b", "a/.b.", "x.y/.",
    "//", "a\\b.c", "C:\\x\\y.z", "é.É", "no_ext/",
];

#[test]
fn extensions_are_those_of_the_standard_library() {
    for path in SAMPLES {
        let expected = Path::new(path).extension().map(|e| e.to_string_lossy().into_owned());
        assert_eq!(extension(path), expected, "{:?}", path);
    }
}

#[test]
fn stems_are_those_of_the_standard_library() {
    for path in SAMPLES {
        let expected = Path::new(path).file_stem().map(|e| e.to_string_lossy().into_owned());
        assert_eq!(file_stem(path), expected, "{:?}", path);
    }
}

#[test]
fn a_name_is_its_stem_and_its_extension() {
    assert_eq!(extension("report.final.pdf"), Some("pdf".to_string()));
    assert_eq!(file_stem("report.final.pdf"), Some("report.final".to_string()));
    assert_eq!(extension(".profile"), None);
    assert_eq!(file_stem(".profile"), Some(".profile".to_string()));
    assert_eq!(extension("name."), Some("".to_string()));
    assert_eq!(file_stem("name."), Some("name".to_string()));
    assert_eq!(extension("/"), None);
    assert_eq!(file_stem("/"), None);
}

#[test]
fn a_file_name_parts_at_its_last_dot() {
    assert_eq!(extension_in_name("foo.txt"), Some("txt".to_string()));
    assert_eq!(stem_in_name("foo.txt"), "foo");
    assert_eq!(extension_in_name("archive.tar.gz"), Some("gz".to_string()));
    assert_eq!(stem_in_name("archive.tar.gz"), "archive.tar");
    assert_eq!(extension_in_name(".bashrc"), None);
    assert_eq!(stem_in_name(".bashrc"), ".bashrc");
    assert_eq!(extension_in_name("README"), None);
    assert_eq!(stem_in_name("README"), "README");
    assert_eq!(extension_in_name(".."), None);
    assert_eq!(stem_in_name(".."), "..");
    assert_eq!(extension_in_name("a."), Some("".to_string()));
    assert_eq!(stem_in_name("a."), "a");
    assert_eq!(extension_in_name(""), None);
    assert_eq!(stem_in_name(""), "");
    for name in ["x.y", "..x", "a.b.c", "no", ".h.txt", "中.文"] {
        let p = Path::new(name);
        assert_eq!(extension_in_name(name), p.extension().map(|e| e.to_string_lossy().into_owned()), "{}", name);
        assert_eq!(Some(stem_in_name(name)), p.file_stem().map(|e| e.to_string_lossy().into_owned()), "{}", name);
    }
}
