use simple_rust_server::mime::content_type;
use simple_rust_server::mime::content_type_for;
use simple_rust_server::mime::lookup;
use simple_rust_server::mime::to_lower;
use simple_rust_server::mime::to_lowercase;

#[test]
fn to_lower_folds_ascii_letters_only() {
    assert_eq!(to_lower(b'A'), b'a');
    assert_eq!(to_lower(b'Z'), b'z');
    assert_eq!(to_lower(b'a'), b'a');
    assert_eq!(to_lower(b'@'), b'@');
    assert_eq!(to_lower(b'['), b'[');
    assert_eq!(to_lower(b'0'), b'0');
    assert_eq!(to_lower(0xC4), 0xC4);
}

#[test]
fn to_lowercase_folds_each_byte() {
    assert_eq!(to_lowercase(b"HtMl"), b"html".to_vec());
    assert_eq!(to_lowercase(b"JPEG"), b"jpeg".to_vec());
    assert_eq!(to_lowercase(b""), b"".to_vec());
    assert_eq!(to_lowercase(b"a-B_9"), b"a-b_9".to_vec());
}

#[test]
fn lookup_knows_every_entry_of_the_table() {
    assert_eq!(lookup(b"html"), Some("text/html; charset=utf-8"));
    assert_eq!(lookup(b"htm"), Some("text/html; charset=utf-8"));
    assert_eq!(lookup(b""), Some("text/html; charset=utf-8"));
    assert_eq!(lookup(b"css"), Some("text/css; charset=utf-8"));
    assert_eq!(lookup(b"js"), Some("text/javascript; charset=utf-8"));
    assert_eq!(lookup(b"mjs"), Some("text/javascript; charset=utf-8"));
    assert_eq!(lookup(b"json"), Some("application/json; charset=utf-8"));
    assert_eq!(lookup(b"map"), Some("application/json; charset=utf-8"));
    assert_eq!(lookup(b"svg"), Some("image/svg+xml"));
    assert_eq!(lookup(b"png"), Some("image/png"));
    assert_eq!(lookup(b"jpg"), Some("image/jpeg"));
    assert_eq!(lookup(b"jpeg"), Some("image/jpeg"));
    assert_eq!(lookup(b"gif"), Some("image/gif"));
    assert_eq!(lookup(b"webp"), Some("image/webp"));
    assert_eq!(lookup(b"ico"), Some("image/x-icon"));
    assert_eq!(lookup(b"txt"), Some("text/plain; charset=utf-8"));
    assert_eq!(lookup(b"log"), Some("text/plain; charset=utf-8"));
    assert_eq!(lookup(b"wasm"), Some("application/wasm"));
}

#[test]
fn lookup_takes_the_extension_as_written() {
    assert_eq!(lookup(b"CSS"), None);
    assert_eq!(lookup(b"xyz"), None);
    assert_eq!(lookup(b"htmlx"), None);
    assert_eq!(lookup(b"ht"), None);
}

#[test]
fn content_type_ignores_the_case_of_the_extension() {
    assert_eq!(content_type(b"/srv/www/a.css"), "text/css; charset=utf-8");
    assert_eq!(content_type(b"/srv/www/a.CSS"), "text/css; charset=utf-8");
    assert_eq!(content_type(b"/srv/www/a.Css"), content_type(b"/srv/www/a.cSS"));
    assert_eq!(content_type(b"/srv/www/A.JPEG"), "image/jpeg");
    assert_eq!(content_type_for(Some(b"HTML")), content_type_for(Some(b"html")));
}

#[test]
fn unknown_extension_is_generic_binary() {
    assert_eq!(content_type(b"/srv/www/a.xyz"), "application/octet-stream");
    assert_eq!(content_type(b"/srv/www/a.tar.gz"), "application/octet-stream");
    assert_eq!(content_type_for(Some(b"xyz")), "application/octet-stream");
}

#[test]
fn missing_extension_is_generic_binary() {
    assert_eq!(content_type(b"/srv/www/README"), "application/octet-stream");
    assert_eq!(content_type(b"/srv/www/.hidden"), "application/octet-stream");
    assert_eq!(content_type(b"/srv/www.d/index"), "application/octet-stream");
    assert_eq!(content_type_for(None), "application/octet-stream");
}

#[test]
fn empty_extension_is_html() {
    assert_eq!(content_type(b"/srv/www/index."), "text/html; charset=utf-8");
    assert_eq!(content_type_for(Some(b"")), "text/html; charset=utf-8");
}

#[test]
fn content_type_goes_by_the_final_name() {
    assert_eq!(content_type(b"/srv/www/index.html"), "text/html; charset=utf-8");
    assert_eq!(content_type(b"/srv/www/app.js"), "text/javascript; charset=utf-8");
    assert_eq!(content_type(b"/srv/www/app.js.map"), "application/json; charset=utf-8");
    assert_eq!(content_type(b"/srv/www/logo.svg"), "image/svg+xml");
    assert_eq!(content_type(b"/srv/www/mod.wasm"), "application/wasm");
    assert_eq!(content_type(b"/srv/www/notes.txt"), "text/plain; charset=utf-8");
}

#[test]
fn folding_agrees_with_unicode_lowercase_on_the_table() {
    let samples = [
        "html", "HTML", "Htm", "CSS", "Js", "MJS", "JSON", "Svg", "PNG", "JPG", "JpEg", "GIF",
        "WEBP", "ICO", "TXT", "LOG", "WASM", "MAP", "", "xyz", "XYZ", "\u{212A}", "lo\u{212A}",
        "\u{130}co", "\u{c9}T\u{c9}", "tar.GZ", "j s", "7z",
    ];
    for ext in samples {
        let by_unicode = lookup(ext.to_lowercase().as_bytes()).unwrap_or("application/octet-stream");
        assert_eq!(content_type_for(Some(ext.as_bytes())), by_unicode, "extension {:?}", ext);
    }
}
