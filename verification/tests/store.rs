use mermaid_cli_rs::store::{
    build_store, diagram_error_message, diagram_source, Defaults, DiagramSource, StoreError,
};

fn defaults() -> Defaults {
    Defaults {
        font: "default font bytes".as_bytes().to_vec(),
        style: "body {}".as_bytes().to_vec(),
        config: "{}".as_bytes().to_vec(),
        mermaid_js: "export default {};".as_bytes().to_vec(),
    }
}

#[test]
fn diagram_source_stdin_sentinel() {
    assert_eq!(diagram_source("-"), DiagramSource::Stdin);
}

#[test]
fn diagram_source_named_file() {
    assert_eq!(diagram_source("diagram.mmd"), DiagramSource::File);
    assert_eq!(diagram_source(""), DiagramSource::File);
    assert_eq!(diagram_source("--"), DiagramSource::File);
}

#[test]
fn diagram_bytes_stored_untransformed() {
    let input = "graph TD; A-->B;".as_bytes().to_vec();
    let store = build_store(defaults(), None, None, None, Some(input.clone())).unwrap();
    assert_eq!(store.diagram, input);
}

#[test]
fn unreadable_overrides_fall_back_to_defaults() {
    let store =
        build_store(defaults(), None, None, None, Some("d".as_bytes().to_vec())).unwrap();
    assert_eq!(store.font, "default font bytes".as_bytes());
    assert_eq!(store.style, "body {}".as_bytes());
    assert_eq!(store.config, "{}".as_bytes());
    assert_eq!(store.mermaid_js, "export default {};".as_bytes());
}

#[test]
fn readable_overrides_are_used() {
    let store = build_store(
        defaults(),
        Some("font override".as_bytes().to_vec()),
        Some("style override".as_bytes().to_vec()),
        Some("config override".as_bytes().to_vec()),
        Some("d".as_bytes().to_vec()),
    )
    .unwrap();
    assert_eq!(store.font, "font override".as_bytes());
    assert_eq!(store.style, "style override".as_bytes());
    assert_eq!(store.config, "config override".as_bytes());
    assert_eq!(store.mermaid_js, "export default {};".as_bytes());
}

#[test]
fn unreadable_diagram_is_fatal() {
    let r = build_store(defaults(), None, None, None, None);
    assert!(matches!(r, Err(StoreError::DiagramUnreadable)));
}

#[test]
fn diagram_error_message_names_the_file() {
    let m = diagram_error_message("missing.mmd");
    assert_eq!(m, "Failed to read input file missing.mmd");
}
