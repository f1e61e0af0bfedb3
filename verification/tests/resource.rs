use godot_wry::mime::content_type;
use godot_wry::resource::{extension, get_res_response, resource_path, ResourceRequest};
use godot_wry::sandbox::resolve;

fn request(host: &str, path: &str) -> ResourceRequest {
    ResourceRequest { scheme: "res".to_string(), host: host.to_string(), path: path.to_string() }
}

#[test]
fn logo_png_is_served_with_its_bytes() {
    let req = request("localhost", "/assets/logo.png");
    assert_eq!(resource_path(&req), Some("res://localhost/assets/logo.png".to_string()));
    let bytes = vec![0x89u8, 0x50, 0x4e, 0x47, 0x0d, 0x0a];
    let response = get_res_response(&req, Some(bytes.clone()));
    assert_eq!(response.status, 200);
    assert_eq!(response.content_type, "image/png");
    assert_eq!(response.body, bytes);
}

#[test]
fn absent_file_is_a_404_in_plain_text() {
    let req = request("localhost", "/assets/missing.png");
    let response = get_res_response(&req, None);
    assert_eq!(response.status, 404);
    assert_eq!(response.content_type, "text/plain");
    assert_eq!(
        String::from_utf8(response.body).unwrap(),
        "Could not find file at \"res://localhost/assets/missing.png\""
    );
}

#[test]
fn present_file_without_known_extension_gets_default_type() {
    let response = get_res_response(&request("localhost", "/data/blob.xyz"), Some(vec![1, 2, 3]));
    assert_eq!(response.status, 200);
    assert_eq!(response.content_type, "application/octet-stream");
    assert_eq!(response.body, vec![1, 2, 3]);
    let bare = get_res_response(&request("localhost", "/LICENSE"), Some(vec![]));
    assert_eq!(bare.status, 200);
    assert_eq!(bare.content_type, "application/octet-stream");
    assert_eq!(bare.body, Vec::<u8>::new());
}

#[test]
fn escape_from_the_root_is_never_served() {
    let req = request("localhost", "/../../etc/passwd");
    assert_eq!(resource_path(&req), None);
    let response = get_res_response(&req, Some(b"root:x:0:0".to_vec()));
    assert_eq!(response.status, 404);
    assert_eq!(response.content_type, "text/plain");
    assert_eq!(
        String::from_utf8(response.body).unwrap(),
        "Could not find file at \"res://localhost/../../etc/passwd\""
    );
}

#[test]
fn escape_without_host_is_never_served() {
    let req = request("", "/../secret.txt");
    assert_eq!(resource_path(&req), None);
    assert_eq!(get_res_response(&req, Some(vec![7])).status, 404);
}

#[test]
fn resolve_normalises_inside_the_root() {
    assert_eq!(resolve("localhost/assets/logo.png"), Some("res://localhost/assets/logo.png".to_string()));
    assert_eq!(resolve("/etc/passwd"), Some("res://etc/passwd".to_string()));
    assert_eq!(resolve("a/./b//c/"), Some("res://a/b/c".to_string()));
    assert_eq!(resolve("a/b/../c"), Some("res://a/c".to_string()));
    assert_eq!(resolve("a/.."), Some("res://".to_string()));
    assert_eq!(resolve(""), Some("res://".to_string()));
    assert_eq!(resolve("..."), Some("res://...".to_string()));
    assert_eq!(resolve("a/..b/c"), Some("res://a/..b/c".to_string()));
    assert_eq!(resolve("caf\u{e9}/\u{1f600}.png"), Some("res://caf\u{e9}/\u{1f600}.png".to_string()));
}

#[test]
fn resolve_refuses_every_escape() {
    assert_eq!(resolve(".."), None);
    assert_eq!(resolve("../a"), None);
    assert_eq!(resolve("a/../.."), None);
    assert_eq!(resolve("a/../../a/b"), None);
    assert_eq!(resolve("/./../x"), None);
    assert_eq!(resolve("a/b/../../../c/d/e"), None);
}

#[test]
fn resolving_a_resolved_path_changes_nothing() {
    let once = resolve("x/./y/../z/file.txt").unwrap();
    assert_eq!(once, "res://x/z/file.txt");
    let relative = once.strip_prefix("res://").unwrap();
    assert_eq!(resolve(relative), Some(once.clone()));
}

#[test]
fn extension_is_what_follows_the_last_dot_of_the_last_name() {
    assert_eq!(extension("res://localhost/assets/logo.png"), "png");
    assert_eq!(extension("res://a/archive.tar.gz"), "gz");
    assert_eq!(extension("res://a/README"), "");
    assert_eq!(extension("res://a/.hidden"), "");
    assert_eq!(extension("res://a/.hidden.txt"), "txt");
    assert_eq!(extension("res://a.b/file"), "");
    assert_eq!(extension("res://a/file."), "");
    assert_eq!(extension("res://"), "");
    assert_eq!(extension(""), "");
    assert_eq!(extension(".png"), "");
    assert_eq!(extension("x.PNG"), "PNG");
}

#[test]
fn content_type_table_entries() {
    assert_eq!(content_type("aac"), "audio/aac");
    assert_eq!(content_type("png"), "image/png");
    assert_eq!(content_type("html"), "text/html");
    assert_eq!(content_type("htm"), "text/html");
    assert_eq!(content_type("js"), "text/javascript");
    assert_eq!(content_type("json"), "application/json");
    assert_eq!(content_type("jsonld"), "application/ld+json");
    assert_eq!(content_type("svg"), "image/svg+xml");
    assert_eq!(content_type("woff2"), "font/woff2");
    assert_eq!(content_type("3gp"), "video/3gpp");
    assert_eq!(content_type("7z"), "application/x-7z-compressed");
    assert_eq!(content_type("bin"), "application/octet-stream");
    assert_eq!(
        content_type("docx"),
        "application/vnd.openxmlformats-officedocument.wordprocessingml.document"
    );
}

#[test]
fn content_type_of_unknown_extension_is_the_default() {
    assert_eq!(content_type(""), "application/octet-stream");
    assert_eq!(content_type("xyz"), "application/octet-stream");
    assert_eq!(content_type("PNG"), "application/octet-stream");
    assert_eq!(content_type(".png"), "application/octet-stream");
    assert_eq!(content_type("pn"), "application/octet-stream");
    assert_eq!(content_type("pngx"), "application/octet-stream");
}

#[test]
fn backslash_separates_names_like_a_slash() {
    assert_eq!(resolve("..\\..\\secret"), None);
    assert_eq!(resolve("a\\..\\..\\secret"), None);
    assert_eq!(resolve("a/..\\../b"), None);
    assert_eq!(resolve("a\\b"), Some("res://a/b".to_string()));
    assert_eq!(resolve("a\\.\\b\\..\\c.txt"), Some("res://a/c.txt".to_string()));
    assert_eq!(resolve("\\a"), Some("res://a".to_string()));
    let req = request("localhost", "/..\\..\\secret.txt");
    assert_eq!(resource_path(&req), None);
    assert_eq!(get_res_response(&req, Some(vec![1])).status, 404);
    assert_eq!(extension("a.b\\file"), "");
    assert_eq!(extension("a\\.hidden"), "");
    assert_eq!(extension("a\\b.txt"), "txt");
}

#[test]
fn leading_separators_change_nothing() {
    assert_eq!(resolve("/a/b.txt"), resolve("a/b.txt"));
    assert_eq!(resolve("///a/b.txt"), resolve("a/b.txt"));
    assert_eq!(resolve("/../a"), resolve("../a"));
}
