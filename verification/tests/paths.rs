use std::path::Component;
use std::path::Path;

use simple_rust_server::path::append_bytes;
use simple_rust_server::path::final_extension;
use simple_rust_server::path::final_name;
use simple_rust_server::path::join;
use simple_rust_server::path::name_span;
use simple_rust_server::path::same_bytes;
use simple_rust_server::path::split_components;
use simple_rust_server::path::starts_with;
use simple_rust_server::path::stem_length;
use simple_rust_server::path::trim_leading_separators;
use simple_rust_server::path::with_extension;
use simple_rust_server::path::DOT;
use simple_rust_server::path::SEPARATOR;

fn parts(path: &[u8]) -> Vec<Vec<u8>> {
    split_components(path)
}

fn names(list: &[&str]) -> Vec<Vec<u8>> {
    list.iter().map(|name| name.as_bytes().to_vec()).collect()
}

#[test]
fn separator_and_dot_are_the_ascii_bytes() {
    assert_eq!(SEPARATOR, b'/');
    assert_eq!(DOT, b'.');
}

#[test]
fn same_bytes_compares_content() {
    assert!(same_bytes(b"", b""));
    assert!(same_bytes(b"abc", b"abc"));
    assert!(!same_bytes(b"abc", b"abd"));
    assert!(!same_bytes(b"abc", b"ab"));
    assert!(!same_bytes(b"", b"a"));
}

#[test]
fn append_bytes_adds_at_the_end() {
    let mut out = b"/srv".to_vec();
    append_bytes(&mut out, b"/www");
    assert_eq!(out, b"/srv/www".to_vec());
    append_bytes(&mut out, b"");
    assert_eq!(out, b"/srv/www".to_vec());
}

#[test]
fn leading_separators_are_all_stripped() {
    assert_eq!(trim_leading_separators(b"/index.html"), b"index.html");
    assert_eq!(trim_leading_separators(b"///a/b"), b"a/b");
    assert_eq!(trim_leading_separators(b"a//b/"), b"a//b/");
    assert_eq!(trim_leading_separators(b"/"), b"");
    assert_eq!(trim_leading_separators(b""), b"");
}

#[test]
fn join_puts_one_separator_between() {
    assert_eq!(join(b"/srv/www", b"index.html"), b"/srv/www/index.html".to_vec());
    assert_eq!(join(b"/srv/www/", b"index.html"), b"/srv/www/index.html".to_vec());
    assert_eq!(join(b"/", b"a"), b"/a".to_vec());
    assert_eq!(join(b"", b"a/b"), b"a/b".to_vec());
    assert_eq!(join(b"/srv/www", b""), b"/srv/www/".to_vec());
    assert_eq!(join(b"/srv/www", b"../../etc/passwd"), b"/srv/www/../../etc/passwd".to_vec());
}

#[test]
fn join_lets_an_absolute_path_replace_the_base() {
    assert_eq!(join(b"/srv/www", b"/etc/passwd"), b"/etc/passwd".to_vec());
}

#[test]
fn name_span_skips_padding() {
    assert_eq!(name_span(b"/srv/www/foo.txt"), (9, 16));
    assert_eq!(name_span(b"/srv/www/foo/"), (9, 12));
    assert_eq!(name_span(b"/srv/www/foo/./"), (9, 12));
    assert_eq!(name_span(b"/"), (0, 0));
    assert_eq!(name_span(b""), (0, 0));
    assert_eq!(name_span(b"."), (0, 0));
    assert_eq!(name_span(b"a/.."), (2, 4));
}

#[test]
fn final_name_is_the_last_segment_that_names_something() {
    assert_eq!(final_name(b"/srv/www/foo.txt"), Some(&b"foo.txt"[..]));
    assert_eq!(final_name(b"/srv/www/"), Some(&b"www"[..]));
    assert_eq!(final_name(b"/srv/www/."), Some(&b"www"[..]));
    assert_eq!(final_name(b"/srv//www//"), Some(&b"www"[..]));
    assert_eq!(final_name(b"foo"), Some(&b"foo"[..]));
    assert_eq!(final_name(b"/a/..."), Some(&b"..."[..]));
    assert_eq!(final_name(b"/a/.."), None);
    assert_eq!(final_name(b".."), None);
    assert_eq!(final_name(b"."), None);
    assert_eq!(final_name(b"/"), None);
    assert_eq!(final_name(b""), None);
}

#[test]
fn stem_length_stops_at_the_last_dot() {
    assert_eq!(stem_length(b"foo.txt"), 3);
    assert_eq!(stem_length(b"foo.tar.gz"), 7);
    assert_eq!(stem_length(b"foo"), 3);
    assert_eq!(stem_length(b".bashrc"), 7);
    assert_eq!(stem_length(b"foo."), 3);
    assert_eq!(stem_length(b"..."), 2);
    assert_eq!(stem_length(b""), 0);
}

#[test]
fn final_extension_follows_the_last_dot() {
    assert_eq!(final_extension(b"/srv/www/style.css"), Some(&b"css"[..]));
    assert_eq!(final_extension(b"/srv/www/STYLE.CSS"), Some(&b"CSS"[..]));
    assert_eq!(final_extension(b"/srv/www/a.tar.gz"), Some(&b"gz"[..]));
    assert_eq!(final_extension(b"/srv/www/page.html/"), Some(&b"html"[..]));
    assert_eq!(final_extension(b"/srv/www/page."), Some(&b""[..]));
    assert_eq!(final_extension(b"/srv/www/page"), None);
    assert_eq!(final_extension(b"/srv/www/.hidden"), None);
    assert_eq!(final_extension(b"/srv/www.d/page"), None);
    assert_eq!(final_extension(b"/srv/www/.."), None);
    assert_eq!(final_extension(b"/"), None);
}

#[test]
fn with_extension_replaces_what_follows_the_last_dot() {
    assert_eq!(with_extension(b"/srv/www/foo", b"html"), b"/srv/www/foo.html".to_vec());
    assert_eq!(with_extension(b"/srv/www/foo", b"htm"), b"/srv/www/foo.htm".to_vec());
    assert_eq!(with_extension(b"/srv/www/foo.txt", b"html"), b"/srv/www/foo.html".to_vec());
    assert_eq!(with_extension(b"/srv/www/foo.tar.gz", b"html"), b"/srv/www/foo.tar.html".to_vec());
    assert_eq!(with_extension(b"/srv/www/.bashrc", b"html"), b"/srv/www/.bashrc.html".to_vec());
    assert_eq!(with_extension(b"/srv/www/foo.", b"html"), b"/srv/www/foo.html".to_vec());
    assert_eq!(with_extension(b"/srv/www.d/foo", b"html"), b"/srv/www.d/foo.html".to_vec());
}

#[test]
fn with_extension_cuts_padding_after_the_name() {
    assert_eq!(with_extension(b"/srv/www/foo/", b"html"), b"/srv/www/foo.html".to_vec());
    assert_eq!(with_extension(b"/srv/www/.", b"html"), b"/srv/www.html".to_vec());
    assert_eq!(with_extension(b"/srv/www/a.txt/./", b"htm"), b"/srv/www/a.htm".to_vec());
}

#[test]
fn with_extension_leaves_a_path_without_name_alone() {
    assert_eq!(with_extension(b"/srv/www/..", b"html"), b"/srv/www/..".to_vec());
    assert_eq!(with_extension(b"/", b"html"), b"/".to_vec());
    assert_eq!(with_extension(b"", b"html"), b"".to_vec());
}

#[test]
fn with_extension_drops_the_extension_for_an_empty_one() {
    assert_eq!(with_extension(b"/srv/www/foo.txt", b""), b"/srv/www/foo".to_vec());
    assert_eq!(with_extension(b"/srv/www/foo", b""), b"/srv/www/foo".to_vec());
}

#[test]
fn components_skip_empty_and_dot_segments() {
    assert_eq!(parts(b"/srv/www/index.html"), names(&["srv", "www", "index.html"]));
    assert_eq!(parts(b"/srv//www/./a/"), names(&["srv", "www", "a"]));
    assert_eq!(parts(b"a/b"), names(&["a", "b"]));
    assert_eq!(parts(b"./a"), names(&["a"]));
    assert_eq!(parts(b"/"), names(&[]));
    assert_eq!(parts(b""), names(&[]));
    assert_eq!(parts(b"."), names(&[]));
}

#[test]
fn components_keep_parent_segments() {
    assert_eq!(parts(b"/srv/www/../etc"), names(&["srv", "www", "..", "etc"]));
    assert_eq!(parts(b".."), names(&[".."]));
    assert_eq!(parts(b"/a/.../b"), names(&["a", "...", "b"]));
}

#[test]
fn starts_with_goes_by_components() {
    assert!(starts_with(b"/base/x", b"/base"));
    assert!(starts_with(b"/base", b"/base"));
    assert!(starts_with(b"/base/", b"/base"));
    assert!(starts_with(b"/base/a/b", b"/base/a"));
    assert!(starts_with(b"/base/x", b"/"));
    assert!(starts_with(b"/base/x", b"/base/"));
}

#[test]
fn starts_with_is_no_string_prefix() {
    assert!(!starts_with(b"/base-evil", b"/base"));
    assert!(!starts_with(b"/base-evil/x", b"/base"));
    assert!(!starts_with(b"/bas", b"/base"));
    assert!(!starts_with(b"/", b"/base"));
    assert!(!starts_with(b"/etc/passwd", b"/srv/www"));
}

#[test]
fn starts_with_tells_absolute_from_relative() {
    assert!(!starts_with(b"base/x", b"/base"));
    assert!(!starts_with(b"/base/x", b"base"));
    assert!(starts_with(b"base/x", b"base"));
}

const SAMPLES: [&str; 40] = [
    "",
    "/",
    "//",
    ".",
    "..",
    "/.",
    "/..",
    "foo",
    "foo.txt",
    "foo.",
    ".foo",
    ".foo.txt",
    "...",
    "a/b/c.d",
    "a//b/./c.d/",
    "a/..",
    "a/../b.c",
    "/srv/www",
    "/srv/www/",
    "/srv/www/.",
    "/srv/www/..",
    "/srv/www/index.html",
    "/srv/www/INDEX.HTML",
    "/srv/www/foo",
    "/srv/www/foo/",
    "/srv/www/foo//",
    "/srv/www/foo/./",
    "/srv/www/foo.tar.gz",
    "/srv/www/foo.tar.gz/",
    "/srv/www/.hidden",
    "/srv/www/.hidden.txt",
    "/srv/www/foo.",
    "/srv/www/foo..",
    "/srv/www/...",
    "/srv/www.d/foo",
    "/srv//www//a.b//",
    "/srv/www/../www-evil/secret.txt",
    "/srv/www/docs/../../../etc/passwd",
    "/srv/www/a b.c d",
    "/srv/www/\u{e9}t\u{e9}.p\u{e2}t\u{e9}",
];

fn std_bytes(path: &Path) -> Vec<u8> {
    path.to_str().unwrap().as_bytes().to_vec()
}

#[test]
fn join_agrees_with_std() {
    for base in SAMPLES {
        for relative in SAMPLES {
            assert_eq!(
                join(base.as_bytes(), relative.as_bytes()),
                std_bytes(&Path::new(base).join(relative)),
                "join({:?}, {:?})",
                base,
                relative
            );
        }
    }
}

#[test]
fn final_name_agrees_with_std() {
    for sample in SAMPLES {
        let expected = Path::new(sample).file_name().map(|name| name.to_str().unwrap().as_bytes());
        assert_eq!(final_name(sample.as_bytes()), expected, "final_name({:?})", sample);
    }
}

#[test]
fn final_extension_agrees_with_std() {
    for sample in SAMPLES {
        let expected = Path::new(sample).extension().map(|ext| ext.to_str().unwrap().as_bytes());
        assert_eq!(final_extension(sample.as_bytes()), expected, "final_extension({:?})", sample);
    }
}

#[test]
fn with_extension_agrees_with_std() {
    for sample in SAMPLES {
        for ext in ["html", "htm", "", "tar.gz"] {
            assert_eq!(
                with_extension(sample.as_bytes(), ext.as_bytes()),
                std_bytes(&Path::new(sample).with_extension(ext)),
                "with_extension({:?}, {:?})",
                sample,
                ext
            );
        }
    }
}

#[test]
fn components_of_absolute_paths_agree_with_std() {
    for sample in SAMPLES {
        if !sample.starts_with('/') {
            continue;
        }
        let expected: Vec<Vec<u8>> = Path::new(sample)
            .components()
            .filter_map(|component| match component {
                Component::Normal(name) => Some(name.to_str().unwrap().as_bytes().to_vec()),
                Component::ParentDir => Some(b"..".to_vec()),
                _ => None,
            })
            .collect();
        assert_eq!(split_components(sample.as_bytes()), expected, "components({:?})", sample);
    }
}

#[test]
fn starts_with_agrees_with_std_on_absolute_paths() {
    for path in SAMPLES {
        for base in SAMPLES {
            if !path.starts_with('/') || !base.starts_with('/') {
                continue;
            }
            assert_eq!(
                starts_with(path.as_bytes(), base.as_bytes()),
                Path::new(path).starts_with(base),
                "starts_with({:?}, {:?})",
                path,
                base
            );
        }
    }
}

#[test]
fn with_extension_keeps_a_stem_that_is_a_dot() {
    assert_eq!(final_name(b"/srv/www/..txt"), Some(&b"..txt"[..]));
    assert_eq!(final_extension(b"/srv/www/..txt"), Some(&b"txt"[..]));
    assert_eq!(stem_length(b"..txt"), 1);
    assert_eq!(with_extension(b"/srv/www/..txt", b"html"), b"/srv/www/..html".to_vec());
}
