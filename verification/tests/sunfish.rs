use sunfish::asset_path;
use sunfish::asset_response;
use sunfish::client_paths;
use sunfish::content_type;
use sunfish::export_file_name;
use sunfish::export_route;
use sunfish::hash;
use sunfish::path_components;
use sunfish::serve_asset;
use sunfish::File;
use sunfish::IncludedDirectory;
use sunfish::Method;
use sunfish::Route;
use sunfish::RouteInitializer;

fn sha256_first16(bytes: &[u8]) -> String {
    let mut h: sha2::Sha256 = digest::Digest::new();
    digest::Digest::update(&mut h, bytes);
    let digest = digest::Digest::finalize(h);
    hex::encode(digest)[0..16].to_owned()
}

#[test]
fn hash_is_first16_of_sha256() {
    assert_eq!(hash(b"body{}"), sha256_first16(b"body{}"));
    assert_eq!(hash(b""), sha256_first16(b""));
    assert_eq!(hash(b"body{}").len(), 16);
}

#[test]
fn hash_is_deterministic() {
    let a = hash(b"console.log(1)");
    let b = hash(b"console.log(1)");
    assert_eq!(a, b);
    assert_ne!(hash(b"a"), hash(b"b"));
}

#[test]
fn asset_path_deterministic_and_distinct() {
    let a1 = asset_path("a/x.css");
    let a2 = asset_path("a/x.css");
    assert_eq!(a1, a2);
    let b = asset_path("a/y.css");
    assert_ne!(a1, b);
}

#[test]
fn asset_path_format() {
    let p = asset_path("a/x.css");
    let expected = format!("/assets/{}.css", sha256_first16(b"a/x.css"));
    assert_eq!(p, expected);
    assert_eq!(asset_path("img.svg"), format!("/assets/{}.svg", sha256_first16(b"img.svg")));
}

#[test]
fn client_paths_format() {
    let cp = client_paths("myapp");
    let h = sha256_first16(b"myapp");
    assert_eq!(cp.path_js, format!("/js/{}.js", h));
    assert_eq!(cp.path_wasm, format!("/js/{}_bg.wasm", h));
}

#[test]
fn path_components_splits_after_first_slash() {
    assert_eq!(path_components("/a/b"), vec!["a", "b"]);
    assert_eq!(path_components("/"), vec![""]);
    assert_eq!(path_components(""), Vec::<&str>::new());
    assert_eq!(path_components("/blog/post/1"), vec!["blog", "post", "1"]);
}

#[test]
fn path_components_without_leading_slash_drops_the_first() {
    assert_eq!(path_components("a/b"), vec!["b"]);
    assert_eq!(path_components("a"), Vec::<&str>::new());
}

#[test]
fn asset_path_takes_the_last_extension() {
    let p = asset_path("pkg/archive.tar.gz");
    assert_eq!(p, format!("/assets/{}.gz", sha256_first16(b"pkg/archive.tar.gz")));
}

#[test]
fn content_type_table() {
    assert_eq!(content_type("a/x.css"), Some("text/css"));
    assert_eq!(content_type("x.js"), Some("text/javascript"));
    assert_eq!(content_type("x.svg"), Some("image/svg+xml"));
    assert_eq!(content_type("x.wasm"), Some("application/wasm"));
    assert_eq!(content_type("x.png"), None);
    assert_eq!(content_type("x"), None);
}

fn demo_dir() -> IncludedDirectory {
    let files = vec![
        ("a/x.css".to_owned(), b"body{}".to_vec()),
        ("a/y.js".to_owned(), b"console.log(1)".to_vec()),
    ];
    IncludedDirectory::new(files).unwrap()
}

#[test]
fn embedded_hash_is_fingerprint_of_data() {
    let dir = demo_dir();
    let f = dir.read(&"a/x.css".to_owned()).unwrap();
    assert_eq!(f.data, b"body{}".to_vec());
    assert_eq!(f.hash, sha256_first16(b"body{}"));
    let g = dir.read(&"a/y.js".to_owned()).unwrap();
    assert_eq!(g.hash, sha256_first16(b"console.log(1)"));
}

#[test]
fn mutating_one_byte_changes_the_hash() {
    // A small fixed-seed generator picks the byte and the flip.
    let data = b"the quick brown fox jumps over the lazy dog".to_vec();
    let original = hash(&data);
    let mut seed: u64 = 0x9e3779b97f4a7c15;
    for _ in 0..50 {
        seed = seed.wrapping_mul(6364136223846793005).wrapping_add(1442695040888963407);
        let idx = (seed >> 33) as usize % data.len();
        let delta = ((seed >> 13) as u8) | 1;
        let mut mutated = data.clone();
        mutated[idx] = mutated[idx].wrapping_add(delta);
        assert_ne!(hash(&mutated), original);
    }
}

#[test]
fn duplicate_paths_are_refused() {
    let files = vec![
        ("a".to_owned(), b"1".to_vec()),
        ("a".to_owned(), b"2".to_vec()),
    ];
    assert!(IncludedDirectory::new(files).is_none());
}

#[test]
fn serve_asset_full_scenario() {
    let dir = demo_dir();
    let r = serve_asset(&dir, Method::Get, "/a/x.css", None).unwrap();
    assert_eq!(r.status, 200);
    assert_eq!(r.content_type, Some("text/css".to_owned()));
    assert_eq!(r.etag, Some(sha256_first16(b"body{}")));
    assert_eq!(r.body, b"body{}".to_vec());
}

#[test]
fn serve_asset_conditional_request() {
    let dir = demo_dir();
    let etag = sha256_first16(b"body{}");
    let r = serve_asset(&dir, Method::Get, "/a/x.css", Some(&etag)).unwrap();
    assert_eq!(r.status, 304);
    assert!(r.body.is_empty());
    assert_eq!(r.etag, Some(etag.clone()));

    let stale = "0000000000000000".to_owned();
    let r = serve_asset(&dir, Method::Get, "/a/x.css", Some(&stale)).unwrap();
    assert_eq!(r.status, 200);
    assert_eq!(r.body, b"body{}".to_vec());
}

#[test]
fn serve_asset_refuses_non_get_and_misses() {
    let dir = demo_dir();
    assert!(serve_asset(&dir, Method::Post, "/a/x.css", None).is_none());
    assert!(serve_asset(&dir, Method::Get, "/nope.css", None).is_none());
}

#[test]
fn live_files_never_carry_a_hash() {
    // The same path read before and after an external change hands back the
    // old, then the new content, and no fingerprint either time.
    let before = File::live(b"old".to_vec());
    assert_eq!(before.data, b"old".to_vec());
    assert!(before.hash.is_none());
    let after = File::live(b"new".to_vec());
    assert_eq!(after.data, b"new".to_vec());
    assert!(after.hash.is_none());

    let r = asset_response(&before, &"style.css".to_owned(), Some(&"anything".to_owned()));
    assert_eq!(r.status, 200);
    assert_eq!(r.body, b"old".to_vec());
    assert!(r.etag.is_none());
}

#[test]
fn export_file_name_mapping() {
    assert_eq!(export_file_name("/"), "index.html");
    assert_eq!(export_file_name("/blog/"), "blog/index.html");
    assert_eq!(export_file_name("/about"), "about.html");
}

#[test]
fn export_renders_each_enumerated_path() {
    let route: Route<fn() -> Vec<String>, _> = Route::new_static_with_paths(
        || vec!["/blog/1".to_owned(), "/blog/2".to_owned()],
        |path: String| format!("<h1>{}</h1>", path),
    );
    let plan = export_route(route, &"/blog/:id".to_owned());
    assert_eq!(plan.len(), 2);
    assert_eq!(plan[0].file, "blog/1.html");
    assert_eq!(plan[0].html, "<h1>/blog/1</h1>");
    assert_eq!(plan[1].file, "blog/2.html");
    assert_eq!(plan[1].html, "<h1>/blog/2</h1>");
}

#[test]
fn export_without_enumerator_uses_the_pattern() {
    let route: Route<fn() -> Vec<String>, _> = Route::new_static(|path: String| {
        format!("page at {}", path)
    });
    let plan = export_route(route, &"/about".to_owned());
    assert_eq!(plan.len(), 1);
    assert_eq!(plan[0].file, "about.html");
    assert_eq!(plan[0].html, "page at /about");
}

#[test]
fn export_skips_dynamic_routes() {
    // A table with one Static and one Dynamic entry produces output files
    // only for the Static entry's enumerated paths.
    type StaticRoute = Route<fn() -> Vec<String>, fn(String) -> String>;
    fn static_init() -> StaticRoute {
        fn enumerate() -> Vec<String> {
            vec!["/home".to_owned()]
        }
        fn render(path: String) -> String {
            format!("[{}]", path)
        }
        Route::new_static_with_paths(enumerate, render)
    }
    fn dynamic_init() -> StaticRoute {
        Route::new_dynamic()
    }
    let table = vec![
        RouteInitializer { path_with_placeholders: "/home".to_owned(), init: static_init as fn() -> StaticRoute },
        RouteInitializer { path_with_placeholders: "/api/:x".to_owned(), init: dynamic_init as fn() -> StaticRoute },
    ];
    let mut outputs: Vec<(String, String)> = Vec::new();
    for entry in &table {
        let route = (entry.init)();
        for page in export_route(route, &entry.path_with_placeholders) {
            outputs.push((page.file, page.html));
        }
    }
    assert_eq!(outputs, vec![("home.html".to_owned(), "[/home]".to_owned())]);
}

#[test]
fn render_answers_static_only() {
    let route: Route<fn() -> Vec<String>, _> =
        Route::new_static(|path: String| format!("<{}>", path));
    assert_eq!(route.render("/p".to_owned()), Some("</p>".to_owned()));
    let dynamic: Route<fn() -> Vec<String>, fn(String) -> String> = Route::new_dynamic();
    assert_eq!(dynamic.render("/p".to_owned()), None);
}
