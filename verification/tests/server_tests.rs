use webserver::errors::{ConnectionError, ErrorPages};
use webserver::handler::plan_request;
use webserver::parse::{extract_path, parse_request};
use webserver::resolve::{classify_path, content_type_str, resolve_target, ResourceKind};
use webserver::respond::{binary_response, text_response};
use webserver::strutil::{contains_substring, usize_to_string};

#[test]
fn extract_path_gets_second_field() {
    assert_eq!(extract_path("GET /home HTTP/1.1"), Some("/home".to_string()));
    assert_eq!(extract_path("GET / HTTP/1.1"), Some("/".to_string()));
    assert_eq!(extract_path("GET /style.css"), Some("/style.css".to_string()));
    // A trailing space yields an empty second field, as split-on-space does.
    assert_eq!(extract_path("GET "), Some("".to_string()));
}

#[test]
fn extract_path_single_field() {
    assert_eq!(extract_path("GET"), None);
    assert_eq!(extract_path(""), None);
}

#[test]
fn parse_request_no_lines() {
    let lines: Vec<String> = vec![];
    assert_eq!(parse_request(&lines), Err(ConnectionError::TCPReadFailed));
}

#[test]
fn parse_request_empty_first_line() {
    let lines = vec!["".to_string(), "GET / HTTP/1.1".to_string()];
    assert_eq!(parse_request(&lines), Err(ConnectionError::TCPReadFailed));
}

#[test]
fn parse_request_takes_first_line() {
    let lines = vec!["GET /home HTTP/1.1".to_string(), "Host: localhost".to_string()];
    assert_eq!(parse_request(&lines), Ok("/home".to_string()));
}

#[test]
fn classify_by_suffix() {
    assert_eq!(classify_path("/style.css"), ResourceKind::Css);
    assert_eq!(classify_path("/logo.png"), ResourceKind::Png);
    assert_eq!(classify_path("/favicon.ico"), ResourceKind::Ico);
    assert_eq!(classify_path("/home"), ResourceKind::Html);
    assert_eq!(classify_path("/"), ResourceKind::Html);
}

#[test]
fn classify_priority_order() {
    // `.css` wins over `.png` when both occur, whatever their positions.
    assert_eq!(classify_path("/a.png.css"), ResourceKind::Css);
    assert_eq!(classify_path("/a.css.png"), ResourceKind::Css);
    assert_eq!(classify_path("/a.png.ico"), ResourceKind::Png);
}

#[test]
fn content_types() {
    assert_eq!(content_type_str(ResourceKind::Css), "text/css");
    assert_eq!(content_type_str(ResourceKind::Png), "image/png");
    assert_eq!(content_type_str(ResourceKind::Ico), "image/vnd.microsoft.icon");
    assert_eq!(content_type_str(ResourceKind::Html), "text/html");
}

#[test]
fn binary_kinds() {
    assert!(ResourceKind::Png.is_binary());
    assert!(ResourceKind::Ico.is_binary());
    assert!(!ResourceKind::Css.is_binary());
    assert!(!ResourceKind::Html.is_binary());
}

#[test]
fn resolve_root_is_home() {
    let a = resolve_target("/");
    let b = resolve_target("/home");
    assert_eq!(a.kind, ResourceKind::Html);
    assert_eq!(b.kind, ResourceKind::Html);
    assert_eq!(a.file, "website/home.html");
    assert_eq!(b.file, "website/home.html");
    assert_eq!(a.file, b.file);
}

#[test]
fn resolve_assets_verbatim() {
    let css = resolve_target("/style.css");
    assert_eq!(css.kind, ResourceKind::Css);
    assert_eq!(css.file, "website/style.css");
    let png = resolve_target("/img/logo.png");
    assert_eq!(png.kind, ResourceKind::Png);
    assert_eq!(png.file, "website/img/logo.png");
    let ico = resolve_target("/favicon.ico");
    assert_eq!(ico.kind, ResourceKind::Ico);
    assert_eq!(ico.file, "website/favicon.ico");
}

#[test]
fn resolve_html_appends_extension() {
    let page = resolve_target("/about");
    assert_eq!(page.kind, ResourceKind::Html);
    assert_eq!(page.file, "website/about.html");
}

#[test]
fn text_response_exact_bytes() {
    let r = text_response(ResourceKind::Html, Some("<h1>Hi</h1>".to_string()));
    assert_eq!(
        r,
        Ok("HTTP/1.1 200 OK\r\nContent-Type: text/html\r\nContent-Length: 11\r\n\r\n<h1>Hi</h1>"
            .to_string())
    );
}

#[test]
fn text_response_counts_bytes_not_chars() {
    // "h\u{e9}llo" is five characters but six UTF-8 bytes.
    let r = text_response(ResourceKind::Html, Some("h\u{e9}llo".to_string()));
    assert_eq!(
        r,
        Ok("HTTP/1.1 200 OK\r\nContent-Type: text/html\r\nContent-Length: 6\r\n\r\nh\u{e9}llo"
            .to_string())
    );
}

#[test]
fn text_response_css() {
    let r = text_response(ResourceKind::Css, Some("body{}".to_string()));
    assert_eq!(
        r,
        Ok("HTTP/1.1 200 OK\r\nContent-Type: text/css\r\nContent-Length: 6\r\n\r\nbody{}"
            .to_string())
    );
}

#[test]
fn text_response_missing_file() {
    let r = text_response(ResourceKind::Html, None);
    assert_eq!(r, Err(ConnectionError::SourceNotFound));
}

#[test]
fn binary_response_round_trip() {
    // PNG signature plus bytes that are not valid UTF-8.
    let payload: Vec<u8> = vec![0x89, 0x50, 0x4e, 0x47, 0x0d, 0x0a, 0x1a, 0x0a, 0xff, 0x00];
    let r = binary_response(ResourceKind::Png, Some(payload.clone())).unwrap();
    assert_eq!(
        r.head,
        "HTTP/1.1 200 OK\r\nContent-Type: image/png\r\nContent-Length: 10\r\n\r\n"
    );
    assert_eq!(r.body, payload);
}

#[test]
fn binary_response_ico_head() {
    let payload: Vec<u8> = vec![0x00, 0x00, 0x01, 0x00];
    let r = binary_response(ResourceKind::Ico, Some(payload.clone())).unwrap();
    assert_eq!(
        r.head,
        "HTTP/1.1 200 OK\r\nContent-Type: image/vnd.microsoft.icon\r\nContent-Length: 4\r\n\r\n"
    );
    assert_eq!(r.body, payload);
}

#[test]
fn binary_response_missing_file() {
    let r = binary_response(ResourceKind::Png, None);
    assert!(r.is_err());
    match r {
        Err(e) => assert_eq!(e, ConnectionError::SourceNotFound),
        Ok(_) => unreachable!(),
    }
}

#[test]
fn error_pages_rendered_at_startup() {
    let pages = ErrorPages::new(Some("oops".to_string()), Some("bad".to_string()));
    assert_eq!(
        ConnectionError::SourceNotFound.get_html_err_msg(&pages),
        "HTTP/1.1 404 NOT FOUND\r\nContent-Length: 4\r\n\r\noops"
    );
    assert_eq!(
        ConnectionError::InternalServerErr.get_html_err_msg(&pages),
        "HTTP/1.1 500 Internal Server Error\r\nContent-Length: 3\r\n\r\nbad"
    );
    // A malformed request is always answered with a bare status line.
    assert_eq!(
        ConnectionError::TCPReadFailed.get_html_err_msg(&pages),
        "HTTP/1.1 400 BAD REQUEST"
    );
}

#[test]
fn error_pages_bare_status_lines() {
    let pages = ErrorPages::new(None, None);
    assert_eq!(
        ConnectionError::SourceNotFound.get_html_err_msg(&pages),
        "HTTP/1.1 404 NOT FOUND"
    );
    assert_eq!(
        ConnectionError::InternalServerErr.get_html_err_msg(&pages),
        "HTTP/1.1 500 Internal Server Error"
    );
    assert_eq!(
        ConnectionError::TCPReadFailed.get_html_err_msg(&pages),
        "HTTP/1.1 400 BAD REQUEST"
    );
}

#[test]
fn bad_request_line_gets_400() {
    let lines = vec!["GET".to_string()];
    let planned = plan_request(&lines);
    let e = match planned {
        Err(e) => e,
        Ok(_) => unreachable!(),
    };
    assert_eq!(e, ConnectionError::TCPReadFailed);
    let pages = ErrorPages::new(None, None);
    assert_eq!(e.get_html_err_msg(&pages), "HTTP/1.1 400 BAD REQUEST");
}

#[test]
fn missing_asset_gets_404() {
    let lines = vec!["GET /style.css HTTP/1.1".to_string()];
    let plan = plan_request(&lines).unwrap();
    assert_eq!(plan.kind, ResourceKind::Css);
    assert_eq!(plan.file, "website/style.css");
    // The backing file is missing: the resolver reports not-found and the
    // connection is answered with the 404 page.
    let r = text_response(plan.kind, None);
    let e = match r {
        Err(e) => e,
        Ok(_) => unreachable!(),
    };
    let pages = ErrorPages::new(Some("gone".to_string()), None);
    assert_eq!(
        e.get_html_err_msg(&pages),
        "HTTP/1.1 404 NOT FOUND\r\nContent-Length: 4\r\n\r\ngone"
    );
}

#[test]
fn scenario_home_page_and_missing_page() {
    // Content root holds home.html = "<h1>Hi</h1>" and no 404.html.
    let pages = ErrorPages::new(None, None);

    let lines = vec!["GET / HTTP/1.1".to_string(), "Host: localhost".to_string()];
    let plan = plan_request(&lines).unwrap();
    assert_eq!(plan.kind, ResourceKind::Html);
    assert_eq!(plan.file, "website/home.html");
    let ok = text_response(plan.kind, Some("<h1>Hi</h1>".to_string())).unwrap();
    assert_eq!(
        ok,
        "HTTP/1.1 200 OK\r\nContent-Type: text/html\r\nContent-Length: 11\r\n\r\n<h1>Hi</h1>"
    );

    let lines = vec!["GET /missing HTTP/1.1".to_string()];
    let plan = plan_request(&lines).unwrap();
    assert_eq!(plan.file, "website/missing.html");
    let r = text_response(plan.kind, None);
    let e = match r {
        Err(e) => e,
        Ok(_) => unreachable!(),
    };
    assert_eq!(e.get_html_err_msg(&pages), "HTTP/1.1 404 NOT FOUND");
}

#[test]
fn decimal_rendering() {
    assert_eq!(usize_to_string(0), "0");
    assert_eq!(usize_to_string(9), "9");
    assert_eq!(usize_to_string(10), "10");
    assert_eq!(usize_to_string(12345), "12345");
}

#[test]
fn substring_search() {
    assert!(contains_substring("/style.css", ".css"));
    assert!(!contains_substring("/style.cs", ".css"));
    assert!(contains_substring("abc", ""));
    assert!(!contains_substring("ab", "abc"));
}
