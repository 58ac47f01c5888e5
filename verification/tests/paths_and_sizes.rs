use see::listing::bytes_to_size;
use see::paths::{fallback_candidates, fill_path, get_extension};

#[test]
fn test_get_extension() {
    assert_eq!(get_extension("index.html"), "html");
    assert_eq!(get_extension("/index/index.rs"), "rs");
    assert_eq!(get_extension(""), "");
    assert_eq!(get_extension("index"), "");
}

#[test]
fn test_get_extension_hidden_and_trailing() {
    assert_eq!(get_extension(".gitignore"), "");
    assert_eq!(get_extension("/srv/www/archive.tar.gz"), "gz");
    assert_eq!(get_extension("a.b/c"), "");
}

#[test]
fn test_bytes_to_size() {
    assert_eq!(bytes_to_size(0), "0.00 B");
    assert_eq!(bytes_to_size(1), "1.00 B");
    assert_eq!(bytes_to_size(12), "12.00 B");
    assert_eq!(bytes_to_size(1024), "1.00 KB");
    assert_eq!(bytes_to_size(1025), "1.00 KB");
    assert_eq!(bytes_to_size(123456), "120.56 KB");
    assert_eq!(bytes_to_size(99999999), "95.37 MB");
    assert_eq!(bytes_to_size(99999999999), "93.13 GB");
}

#[test]
fn test_bytes_to_size_larger_units() {
    assert_eq!(bytes_to_size(2), "2.00 B");
    assert_eq!(bytes_to_size(1023), "1023.00 B");
    assert_eq!(bytes_to_size(1099511627776), "1.00 TB");
    assert_eq!(bytes_to_size(u64::MAX), "16.00 EB");
}

#[test]
fn test_fill_path() {
    assert_eq!(fill_path("/srv/www", "index.html"), "/srv/www/index.html");
    assert_eq!(fill_path("/srv/www/", "index.html"), "/srv/www/index.html");
    assert_eq!(fill_path("/srv/www", "/etc/custom.html"), "/etc/custom.html");
    assert_eq!(fill_path("", "relative.txt"), "relative.txt");
}

#[test]
fn test_fallback_candidates() {
    let exts = vec![String::from("html"), String::from("txt")];
    let cs = fallback_candidates("/srv/www/./page", &exts);
    assert_eq!(cs.len(), 2);
    assert_eq!(cs[0].path, "/srv/www/./page.html");
    assert_eq!(cs[0].ext, "html");
    assert_eq!(cs[1].path, "/srv/www/./page.txt");
    assert_eq!(cs[1].ext, "txt");
    // A path that already carries an extension never triggers fallback.
    let none = fallback_candidates("/srv/www/./page.json", &exts);
    assert_eq!(none.len(), 0);
}
