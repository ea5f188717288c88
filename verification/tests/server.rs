use fileserve::config::{list_to_set, Config};
use fileserve::handler::{has_dotdot, resolve_path, serve_file, Resolution};

fn demo_config() -> Config {
    Config::new(
        String::from("Public"),
        String::from("index.html"),
        Vec::new(),
    )
}

#[test]
fn root_serves_index() {
    let config = demo_config();
    let content = b"<h1>hi</h1>\n".to_vec();
    let response = serve_file("/", &config, Some(content.clone()));
    assert_eq!(response.status, 200);
    assert_eq!(response.content_length, Some(12));
    assert_eq!(response.content_type, Some(String::from("text/html")));
    assert_eq!(response.body, content);
}

#[test]
fn root_resolves_to_index_file() {
    let config = demo_config();
    match resolve_path("/", &config) {
        Resolution::File { logical, fs_path } => {
            assert_eq!(logical, "index.html");
            assert_eq!(fs_path, "Public/index.html");
        }
        Resolution::Rejected => panic!("the root path must not be rejected"),
    }
}

#[test]
fn traversal_attempt_rejected() {
    let config = demo_config();
    let response = serve_file("/../../etc/passwd", &config, None);
    assert_eq!(response.status, 400);
    assert_eq!(response.body, b"400 Bad Request".to_vec());
    assert_eq!(response.content_type, None);
    assert_eq!(response.content_length, None);
}

#[test]
fn traversal_rejected_wherever_it_occurs() {
    let config = demo_config();
    for path in ["..", "/a..", "/..a/b", "/a../b..c", "/x/../y"] {
        assert!(has_dotdot(path), "{path} holds ..");
        assert!(matches!(resolve_path(path, &config), Resolution::Rejected));
        let response = serve_file(path, &config, None);
        assert_eq!(response.status, 400);
        assert_eq!(response.body, b"400 Bad Request".to_vec());
    }
}

#[test]
fn single_dots_pass_the_guard() {
    let config = demo_config();
    for path in ["/a.b", "/./x", "/file.txt", "/"] {
        assert!(!has_dotdot(path), "{path} holds no ..");
        assert!(!matches!(resolve_path(path, &config), Resolution::Rejected));
    }
}

#[test]
fn missing_file_gives_404() {
    let config = demo_config();
    let response = serve_file("/missing.txt", &config, None);
    assert_eq!(response.status, 404);
    assert_eq!(response.body, b"404 Not Found".to_vec());
    assert_eq!(response.content_type, None);
    assert_eq!(response.content_length, None);
}

#[test]
fn alias_serves_the_index_file() {
    let config = Config::new(
        String::from("Public"),
        String::from("index.html"),
        vec![String::from("about")],
    );
    match resolve_path("/about", &config) {
        Resolution::File { logical, fs_path } => {
            assert_eq!(logical, "index.html");
            assert_eq!(fs_path, "Public/index.html");
        }
        Resolution::Rejected => panic!("an alias must not be rejected"),
    }
    let index_content = b"<h1>hi</h1>\n".to_vec();
    let response = serve_file("/about", &config, Some(index_content.clone()));
    assert_eq!(response.status, 200);
    assert_eq!(response.body, index_content);
    assert_eq!(response.content_type, Some(String::from("text/html")));
}

#[test]
fn css_gets_its_content_type() {
    let config = demo_config();
    match resolve_path("/style.css", &config) {
        Resolution::File { logical, fs_path } => {
            assert_eq!(logical, "/style.css");
            assert_eq!(fs_path, "Public//style.css");
        }
        Resolution::Rejected => panic!("a plain file path must not be rejected"),
    }
    let response = serve_file("/style.css", &config, Some(b"body{}".to_vec()));
    assert_eq!(response.status, 200);
    assert_eq!(response.content_length, Some(6));
    assert_eq!(response.content_type, Some(String::from("text/css")));
}

#[test]
fn unknown_or_absent_extension_gives_text_plain() {
    let config = demo_config();
    let with_unknown = serve_file("/data.zzqq", &config, Some(vec![1, 2, 3]));
    assert_eq!(with_unknown.content_type, Some(String::from("text/plain")));
    let without_extension = serve_file("/README", &config, Some(vec![4, 5]));
    assert_eq!(without_extension.content_type, Some(String::from("text/plain")));
}

#[test]
fn repeating_a_request_gives_an_identical_response() {
    let config = demo_config();
    let content = b"same bytes".to_vec();
    let first = serve_file("/style.css", &config, Some(content.clone()));
    let second = serve_file("/style.css", &config, Some(content));
    assert_eq!(first.status, second.status);
    assert_eq!(first.content_type, second.content_type);
    assert_eq!(first.content_length, second.content_length);
    assert_eq!(first.body, second.body);
}

#[test]
fn list_to_set_normalizes_and_adds_root() {
    let set = list_to_set(vec![String::from("about"), String::from("/x")]);
    assert!(set.contains(&String::from("/")));
    assert!(set.contains(&String::from("/about")));
    assert!(set.contains(&String::from("/x")));
    assert!(!set.contains(&String::from("about")));
}

#[test]
fn empty_alias_list_still_holds_root() {
    let set = list_to_set(Vec::new());
    assert!(set.contains(&String::from("/")));
    let config = demo_config();
    assert!(config.is_alias(&String::from("/")));
    assert!(!config.is_alias(&String::from("/other")));
}

#[test]
fn served_body_is_the_exact_file_content() {
    let config = demo_config();
    let content: Vec<u8> = (0u8..=255).collect();
    let response = serve_file("/blob.bin", &config, Some(content.clone()));
    assert_eq!(response.status, 200);
    assert_eq!(response.content_length, Some(256));
    assert_eq!(response.body, content);
}
