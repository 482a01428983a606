use mermaid_cli_rs::server::{respond, AssetResponse};
use mermaid_cli_rs::store::Store;

fn store() -> Store {
    Store {
        font: "font bytes".as_bytes().to_vec(),
        style: "style bytes".as_bytes().to_vec(),
        config: "config bytes".as_bytes().to_vec(),
        diagram: "diagram bytes".as_bytes().to_vec(),
        mermaid_js: "mermaid bytes".as_bytes().to_vec(),
    }
}

fn html() -> Vec<u8> {
    "<!DOCTYPE html>".as_bytes().to_vec()
}

fn payload(r: AssetResponse) -> (String, Vec<u8>) {
    match r {
        AssetResponse::Payload { content_type, body } => (content_type, body),
        AssetResponse::NotFound => panic!("expected a payload, got 404"),
    }
}

#[test]
fn root_serves_html_shell() {
    let (ct, body) = payload(respond(&store(), &html(), "/"));
    assert_eq!(ct, "text/html");
    assert_eq!(body, html());
}

#[test]
fn font_route_content_type_and_body() {
    let (ct, body) = payload(respond(&store(), &html(), "/font"));
    assert_eq!(ct, "font/woff");
    assert_eq!(body, "font bytes".as_bytes());
}

#[test]
fn style_route_content_type_and_body() {
    let (ct, body) = payload(respond(&store(), &html(), "/style"));
    assert_eq!(ct, "text/css;charset=utf-8");
    assert_eq!(body, "style bytes".as_bytes());
}

#[test]
fn config_route_content_type_and_body() {
    let (ct, body) = payload(respond(&store(), &html(), "/config"));
    assert_eq!(ct, "application/json");
    assert_eq!(body, "config bytes".as_bytes());
}

#[test]
fn diagram_route_content_type_and_body() {
    let (ct, body) = payload(respond(&store(), &html(), "/diagram"));
    assert_eq!(ct, "text/plain;charset=utf-8");
    assert_eq!(body, "diagram bytes".as_bytes());
}

#[test]
fn mermaid_js_route_content_type_and_body() {
    let (ct, body) = payload(respond(&store(), &html(), "/mermaid_js"));
    assert_eq!(ct, "text/javascript");
    assert_eq!(body, "mermaid bytes".as_bytes());
}

#[test]
fn unknown_path_is_not_found() {
    assert!(matches!(respond(&store(), &html(), "/nonexistent"), AssetResponse::NotFound));
}

#[test]
fn nested_path_is_not_found() {
    assert!(matches!(respond(&store(), &html(), "/font/0"), AssetResponse::NotFound));
    assert!(matches!(respond(&store(), &html(), "font"), AssetResponse::NotFound));
    assert!(matches!(respond(&store(), &html(), ""), AssetResponse::NotFound));
}
