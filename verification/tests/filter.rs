use repo_exporter::utils::should_skip_path;

#[test]
fn test_should_skip_path() {
    assert!(should_skip_path("target/debug/app"));
    assert!(should_skip_path("node_modules/package/index.js"));
    assert!(should_skip_path(".git/config"));
    assert!(should_skip_path("app.exe"));
    assert!(!should_skip_path("src/main.rs"));
}

#[test]
fn excluded_paths_by_rule() {
    assert!(should_skip_path("target/debug/app"));
    assert!(should_skip_path("node_modules/pkg/x.js"));
    assert!(should_skip_path(".git/config"));
    assert!(should_skip_path("app.exe"));
    assert!(!should_skip_path("src/main.rs"));
}

#[test]
fn each_prefix_excludes() {
    for path in ["target/", "node_modules/", "dist/", "build/", ".git/", "dist/a.js", "build/x/y"] {
        assert!(should_skip_path(path), "{}", path);
    }
}

#[test]
fn each_suffix_excludes() {
    for path in ["a.dll", "lib/b.so", "c.dylib", "d.exe", "e.bin", ".so", ".bin"] {
        assert!(should_skip_path(path), "{}", path);
    }
}

#[test]
fn finder_metadata_below_a_directory_is_excluded() {
    assert!(should_skip_path("docs/.DS_Store"));
    assert!(should_skip_path("a/.DS_Store/b"));
    assert!(should_skip_path("/.DS_Store"));
    assert!(!should_skip_path(".DS_Store"));
}

#[test]
fn near_misses_are_kept() {
    for path in [
        "",
        "target",
        "src/target/x.rs",
        "my-node_modules/a.js",
        "distribution/a",
        "builder/a",
        ".github/workflows/ci.yml",
        ".gitignore",
        "a.dllx",
        "a.exe.txt",
        "soso",
        "bin",
        "a/DS_Store",
        "Target/a",
    ] {
        assert!(!should_skip_path(path), "{}", path);
    }
}

#[test]
fn the_same_path_gets_the_same_answer() {
    for path in ["target/debug/app", "src/main.rs", "", "a/.DS_Store", "x.so"] {
        assert_eq!(should_skip_path(path), should_skip_path(path));
    }
}

#[test]
fn filter_agrees_with_the_string_methods() {
    let samples = [
        "target/debug/app",
        "src/main.rs",
        "a/b/.DS_Store",
        "x.dylib",
        "éa/ü.so",
        "日本語/target/",
        "",
        ".git",
        ".git/",
    ];
    for p in samples {
        let expected = p.starts_with("target/")
            || p.starts_with("node_modules/")
            || p.starts_with("dist/")
            || p.contains("/.DS_Store")
            || p.starts_with("build/")
            || p.ends_with(".dll")
            || p.ends_with(".so")
            || p.ends_with(".dylib")
            || p.ends_with(".exe")
            || p.ends_with(".bin")
            || p.starts_with(".git/");
        assert_eq!(should_skip_path(p), expected, "{}", p);
    }
}
