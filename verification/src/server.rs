//! The asset server's routing table: which resource and content type each
//! request path is answered with.

use vstd::prelude::*;
use vstd::slice::slice_to_vec;
use vstd::string::StringExecFns;

use crate::store::Store;

verus! {

broadcast use vstd::string::group_string_axioms;

/// The decided answer to one HTTP request: a full in-memory copy of the
/// resource with its content type, or 404 Not Found.
pub enum AssetResponse {
    /// Serve `body` with the `Content-Type` header set to `content_type`.
    Payload { content_type: String, body: Vec<u8> },
    /// 404 Not Found.
    NotFound,
}

/// Decide the response for a request path against the store and the
/// compiled-in HTML shell. The five resources and the shell are served on
/// their fixed routes with their fixed content types; every other path is
/// 404 Not Found.
pub fn respond(store: &Store, html: &[u8], path: &str) -> (r: AssetResponse)
    ensures
        path@ == "/"@ ==> (r matches AssetResponse::Payload { content_type, body } && content_type@
            == "text/html"@ && body@ == html@),
        path@ == "/font"@ ==> (r matches AssetResponse::Payload { content_type, body }
            && content_type@ == "font/woff"@ && body@ == store.font@),
        path@ == "/style"@ ==> (r matches AssetResponse::Payload { content_type, body }
            && content_type@ == "text/css;charset=utf-8"@ && body@ == store.style@),
        path@ == "/config"@ ==> (r matches AssetResponse::Payload { content_type, body }
            && content_type@ == "application/json"@ && body@ == store.config@),
        path@ == "/diagram"@ ==> (r matches AssetResponse::Payload { content_type, body }
            && content_type@ == "text/plain;charset=utf-8"@ && body@ == store.diagram@),
        path@ == "/mermaid_js"@ ==> (r matches AssetResponse::Payload { content_type, body }
            && content_type@ == "text/javascript"@ && body@ == store.mermaid_js@),
        (path@ != "/"@ && path@ != "/font"@ && path@ != "/style"@ && path@ != "/config"@ && path@
            != "/diagram"@ && path@ != "/mermaid_js"@) ==> (r matches AssetResponse::NotFound),
{
    // Reveal the route literals and pin down their lengths, so the six
    // routes are known to be pairwise distinct.
    proof {
        reveal_strlit("/");
        reveal_strlit("/font");
        reveal_strlit("/style");
        reveal_strlit("/config");
        reveal_strlit("/diagram");
        reveal_strlit("/mermaid_js");
        assert("/"@.len() == 1);
        assert("/font"@.len() == 5);
        assert("/style"@.len() == 6);
        assert("/config"@.len() == 7);
        assert("/diagram"@.len() == 8);
        assert("/mermaid_js"@.len() == 11);
    }
    if crate::str_eq(path, "/") {
        AssetResponse::Payload {
            content_type: String::from_str("text/html"),
            body: slice_to_vec(html),
        }
    } else if crate::str_eq(path, "/font") {
        AssetResponse::Payload {
            content_type: String::from_str("font/woff"),
            body: slice_to_vec(store.font.as_slice()),
        }
    } else if crate::str_eq(path, "/style") {
        AssetResponse::Payload {
            content_type: String::from_str("text/css;charset=utf-8"),
            body: slice_to_vec(store.style.as_slice()),
        }
    } else if crate::str_eq(path, "/config") {
        AssetResponse::Payload {
            content_type: String::from_str("application/json"),
            body: slice_to_vec(store.config.as_slice()),
        }
    } else if crate::str_eq(path, "/diagram") {
        AssetResponse::Payload {
            content_type: String::from_str("text/plain;charset=utf-8"),
            body: slice_to_vec(store.diagram.as_slice()),
        }
    } else if crate::str_eq(path, "/mermaid_js") {
        AssetResponse::Payload {
            content_type: String::from_str("text/javascript"),
            body: slice_to_vec(store.mermaid_js.as_slice()),
        }
    } else {
        AssetResponse::NotFound
    }
}

} // verus!
