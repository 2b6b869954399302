use fyla::context::{
    collect_file_context, format_file_size, is_hidden, pick_siblings, SIBLING_LIMIT,
};
use fyla::desktop::{autostart_enabled, autostart_outcome, badge_title};
use fyla::document::FileFacts;
use fyla::prompt::FileContext;
use fyla::rename::FileInfo;
use fyla::scan::{
    comes_before, enters, is_supported, keeps_entry, scanned_file, sort_by_name,
    try_make_scanned_fast, ScannedFile,
};

fn names(list: &[&str]) -> Vec<String> {
    list.iter().map(|s| s.to_string()).collect()
}

fn by_float(bytes: u64) -> String {
    if bytes < 1024 {
        format!("{}B", bytes)
    } else if bytes < 1024 * 1024 {
        format!("{:.0}KB", bytes as f64 / 1024.0)
    } else {
        format!("{:.1}MB", bytes as f64 / (1024.0 * 1024.0))
    }
}

#[test]
fn sizes_as_a_person_reads_them() {
    assert_eq!(format_file_size(0), "0B");
    assert_eq!(format_file_size(1023), "1023B");
    assert_eq!(format_file_size(1024), "1KB");
    assert_eq!(format_file_size(1535), "1KB");
    assert_eq!(format_file_size(1536), "2KB");
    assert_eq!(format_file_size(2560), "2KB");
    assert_eq!(format_file_size(2561), "3KB");
    assert_eq!(format_file_size(3584), "4KB");
    assert_eq!(format_file_size(1024 * 1024 - 1), "1024KB");
    assert_eq!(format_file_size(1024 * 1024), "1.0MB");
    assert_eq!(format_file_size(1310720), "1.2MB");
    assert_eq!(format_file_size(1310721), "1.3MB");
    assert_eq!(format_file_size(1835008), "1.8MB");
    assert_eq!(format_file_size(5 * 1024 * 1024 * 1024), "5120.0MB");
    assert_eq!(format_file_size(u64::MAX), "17592186044416.0MB");
}

#[test]
fn sizes_round_as_floating_point_formatting_does() {
    for bytes in 0..20000u64 {
        assert_eq!(format_file_size(bytes), by_float(bytes), "{}", bytes);
    }
    for k in 0..2000u64 {
        for d in [0u64, 1, 511, 512, 513, 1023] {
            let bytes = k * 1024 + d;
            assert_eq!(format_file_size(bytes), by_float(bytes), "{}", bytes);
        }
    }
    for tenths in 9..400u64 {
        for d in [-1i64, 0, 1] {
            let bytes = ((tenths * 1048576 + 524288) / 10) as i64 + d;
            assert_eq!(format_file_size(bytes as u64), by_float(bytes as u64), "{}", bytes);
        }
    }
    for shift in 20..64u32 {
        for d in [-1025i64, -1024, -513, -512, -1, 0, 1, 255, 256, 257, 511, 512, 513, 1023, 1024, 1025, 1535, 1536, 3072] {
            let bytes = (1u64 << shift).wrapping_add(d as u64);
            assert_eq!(format_file_size(bytes), by_float(bytes), "{}", bytes);
        }
    }
    let mut x: u64 = 0x9E37_79B9_7F4A_7C15;
    for _ in 0..20000 {
        x = x.wrapping_mul(6364136223846793005).wrapping_add(1442695040888963407);
        let bytes = x >> (x % 64);
        assert_eq!(format_file_size(bytes), by_float(bytes), "{}", bytes);
    }
}

#[test]
fn hidden_files_start_with_a_dot() {
    assert!(is_hidden(".DS_Store"));
    assert!(is_hidden("."));
    assert!(!is_hidden("a.b"));
    assert!(!is_hidden(""));
}

#[test]
fn neighbours_leave_out_the_file_itself_and_hidden_files() {
    let files = names(&["a.pdf", ".DS_Store", "me.pdf", "b.pdf", "me.pdf", "c.pdf"]);
    assert_eq!(pick_siblings(&files, &Some("me.pdf".to_string()), 20), names(&["a.pdf", "b.pdf", "c.pdf"]));
    assert_eq!(pick_siblings(&files, &None, 20), names(&["a.pdf", "me.pdf", "b.pdf", "me.pdf", "c.pdf"]));
    assert_eq!(pick_siblings(&files, &Some("me.pdf".to_string()), 2), names(&["a.pdf", "b.pdf"]));
    assert_eq!(pick_siblings(&files, &Some("me.pdf".to_string()), 0), Vec::<String>::new());
    let many: Vec<String> = (0..50).map(|i| format!("f{}.txt", i)).collect();
    assert_eq!(pick_siblings(&many, &Some("f3.txt".to_string()), SIBLING_LIMIT).len(), 20);
    assert_eq!(pick_siblings(&many, &Some("f3.txt".to_string()), SIBLING_LIMIT)[3], "f4.txt");
}

#[test]
fn what_is_known_of_a_file() {
    let files = names(&["scan.pdf", "invoice-1.pdf", ".hidden", "invoice-2.pdf"]);
    let facts = FileFacts { size: 12288, modified: "2024-08-15".to_string() };
    assert_eq!(
        collect_file_context("/home/me/Invoices/scan.pdf", &files, Some(&facts)),
        FileContext {
            original_name: "scan.pdf".to_string(),
            parent_dir: "Invoices".to_string(),
            sibling_names: names(&["invoice-1.pdf", "invoice-2.pdf"]),
            modified_at: "2024-08-15".to_string(),
            file_size: "12KB".to_string(),
        }
    );
    assert_eq!(
        collect_file_context("scan.pdf", &vec![], None),
        FileContext {
            original_name: "scan.pdf".to_string(),
            parent_dir: "".to_string(),
            sibling_names: vec![],
            modified_at: "".to_string(),
            file_size: "".to_string(),
        }
    );
    assert_eq!(collect_file_context("/", &files, None).original_name, "");
    assert_eq!(collect_file_context("/", &files, None).sibling_names.len(), 3);
}

#[test]
fn only_supported_visible_files_are_scanned() {
    assert_eq!(
        scanned_file("/d/Report.PDF", 10),
        Some(ScannedFile { path: "/d/Report.PDF".to_string(), name: "Report.PDF".to_string(), ext: "pdf".to_string(), size: 10 })
    );
    assert_eq!(
        try_make_scanned_fast("pic.JpEg"),
        Some(ScannedFile { path: "pic.JpEg".to_string(), name: "pic.JpEg".to_string(), ext: "jpeg".to_string(), size: 0 })
    );
    assert_eq!(try_make_scanned_fast("/d/.hidden.pdf"), None);
    assert_eq!(try_make_scanned_fast("/d/tool.exe"), None);
    assert_eq!(try_make_scanned_fast("/d/markdown.markdown"), None);
    assert_eq!(try_make_scanned_fast("/d/noext"), None);
    assert_eq!(try_make_scanned_fast("/d/.pdf"), None);
    for ext in ["pdf", "docx", "pptx", "xlsx", "xls", "txt", "md", "jpg", "jpeg", "png", "heic", "webp", "tiff"] {
        assert!(is_supported(&ext.chars().collect()), "{}", ext);
        assert!(try_make_scanned_fast(&format!("/d/x.{}", ext.to_uppercase())).is_some());
    }
    assert!(!is_supported(&"gif".chars().collect()));
}

#[test]
fn a_scan_enters_visible_directories_within_its_depth() {
    assert!(enters("sub", 0, 1));
    assert!(!enters("sub", 1, 1));
    assert!(!enters("sub", 0, 0));
    assert!(!enters(".git", 0, 5));
}

#[test]
fn entries_of_a_folder_are_kept_by_extension() {
    let none: Vec<String> = vec![];
    let exts = names(&["pdf", "md"]);
    assert!(keeps_entry("a.pdf", "/d/a.pdf", &exts));
    assert!(keeps_entry("a.PDF", "/d/a.PDF", &exts));
    assert!(!keeps_entry("a.txt", "/d/a.txt", &exts));
    assert!(!keeps_entry("Makefile", "/d/Makefile", &exts));
    assert!(!keeps_entry(".a.pdf", "/d/.a.pdf", &exts));
    assert!(keeps_entry("a.txt", "/d/a.txt", &none));
    assert!(keeps_entry("Makefile", "/d/Makefile", &none));
    assert!(!keeps_entry(".profile", "/d/.profile", &none));
}

#[test]
fn files_are_ordered_by_name() {
    let file = |name: &str| FileInfo { path: format!("/d/{}", name), name: name.to_string() };
    let given = ["b", "a", "B", "aa", "", "ab", "é", "a", "Z9", "中"];
    let files: Vec<FileInfo> = given.iter().map(|n| file(n)).collect();
    let mut expected = files.clone();
    expected.sort_by(|x, y| x.name.cmp(&y.name));
    assert_eq!(sort_by_name(files), expected);
    assert_eq!(sort_by_name(vec![]), vec![]);
    let first = FileInfo { path: "/1/a".to_string(), name: "a".to_string() };
    let second = FileInfo { path: "/2/a".to_string(), name: "a".to_string() };
    assert_eq!(sort_by_name(vec![first.clone(), second.clone()]), vec![first, second]);
}

#[test]
fn texts_are_ordered_character_by_character() {
    let samples = ["", "a", "A", "ab", "aa", "b", "é", "e", "中", "z", "\u{10FFFF}", "a\u{0}"];
    for x in samples {
        for y in samples {
            let a: Vec<char> = x.chars().collect();
            let b: Vec<char> = y.chars().collect();
            assert_eq!(comes_before(&a, &b), x <= y, "{:?} {:?}", x, y);
        }
    }
}

#[test]
fn what_the_desktop_is_told() {
    assert_eq!(badge_title(0), "");
    assert_eq!(badge_title(7), "7");
    assert_eq!(badge_title(u32::MAX), "4294967295");
    assert_eq!(autostart_outcome(0), Ok(()));
    assert_eq!(autostart_outcome(1), Err("设置开机自启失败".to_string()));
    assert_eq!(autostart_outcome(-1), Err("设置开机自启失败".to_string()));
    assert!(autostart_enabled(1));
    assert!(!autostart_enabled(0));
    assert!(!autostart_enabled(2));
}
