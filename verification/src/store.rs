//! The resource store: the five in-memory byte buffers served to the browser,
//! and the policy for assembling them from defaults and override reads.

use vstd::prelude::*;
use vstd::string::StringExecFns;

verus! {

/// Resources used by the application, assembled once before the asset server
/// starts and never mutated afterwards.
pub struct Store {
    /// The font used by the HTML page.
    pub font: Vec<u8>,
    /// The CSS styles used by the HTML page.
    pub style: Vec<u8>,
    /// The Mermaid configuration data.
    pub config: Vec<u8>,
    /// The input Mermaid diagram.
    pub diagram: Vec<u8>,
    /// The Mermaid.js code used by the HTML page.
    pub mermaid_js: Vec<u8>,
}

/// The compiled-in default contents for the overridable resources, plus the
/// Mermaid.js bundle, which has no override mechanism.
pub struct Defaults {
    /// Default font file content.
    pub font: Vec<u8>,
    /// Default stylesheet content.
    pub style: Vec<u8>,
    /// Default Mermaid configuration content.
    pub config: Vec<u8>,
    /// The Mermaid.js bundle.
    pub mermaid_js: Vec<u8>,
}

/// Where the diagram source is read from.
#[derive(Clone, Copy, Debug, PartialEq, Eq, Structural)]
pub enum DiagramSource {
    /// Read the whole of standard input.
    Stdin,
    /// Read the named file.
    File,
}

/// Failure to build the store.
#[derive(Clone, Copy, Debug, PartialEq, Eq, Structural)]
pub enum StoreError {
    /// The named diagram file could not be read. There is no sensible default
    /// diagram, so this is fatal.
    DiagramUnreadable,
}

/// Decide where the diagram source comes from: the sentinel path `-` means
/// standard input, any other path names a file.
pub fn diagram_source(path: &str) -> (s: DiagramSource)
    ensures
        s == (if path@ == "-"@ {
            DiagramSource::Stdin
        } else {
            DiagramSource::File
        }),
{
    if crate::str_eq(path, "-") {
        DiagramSource::Stdin
    } else {
        DiagramSource::File
    }
}

/// The error message reported when the named diagram file cannot be read.
pub fn diagram_error_message(path: &str) -> (m: String)
    ensures
        m@ == "Failed to read input file "@ + path@,
{
    let mut m = String::from_str("Failed to read input file ");
    m.append(path);
    m
}

/// The resolution policy for one overridable resource: the override's content
/// where one was given and readable, the compiled-in default otherwise.
/// A read failure on an override is deliberately not an error.
pub open spec fn spec_resolved(over: Option<Seq<u8>>, default: Seq<u8>) -> Seq<u8> {
    match over {
        Some(b) => b,
        None => default,
    }
}

/// Resolve one overridable resource: take the override bytes where a given
/// path was readable (`Some`), fall back to the default otherwise.
pub fn override_or_default(over: Option<Vec<u8>>, default: Vec<u8>) -> (r: Vec<u8>)
    ensures
        r@ == spec_resolved(option_view(over), default@),
{
    match over {
        Some(b) => b,
        None => default,
    }
}

/// The view of an optional byte buffer.
pub open spec fn option_view(o: Option<Vec<u8>>) -> Option<Seq<u8>> {
    match o {
        Some(v) => Some(v@),
        None => None,
    }
}

/// Build the store from the compiled-in defaults, the override reads, and the
/// diagram read.
///
/// Each of `font`, `style` and `config` is `Some` exactly when an override
/// path was given and readable; the store then holds its bytes, and the
/// default otherwise. `diagram` is `Some` exactly when the diagram source
/// (standard input, or the named file) was read; its bytes are stored
/// untransformed. A failed diagram read is the one fatal input error.
pub fn build_store(defaults: Defaults, font: Option<Vec<u8>>, style: Option<Vec<u8>>, config: Option<
    Vec<u8>>, diagram: Option<Vec<u8>>) -> (r: Result<Store, StoreError>)
    ensures
        diagram matches Some(d) ==> (r matches Ok(store) && store.diagram@ == d@ && store.font@
            == spec_resolved(option_view(font), defaults.font@) && store.style@ == spec_resolved(
            option_view(style),
            defaults.style@,
        ) && store.config@ == spec_resolved(option_view(config), defaults.config@)
            && store.mermaid_js@ == defaults.mermaid_js@),
        diagram is None ==> (r matches Err(e) && e == StoreError::DiagramUnreadable),
{
    let Defaults { font: dfont, style: dstyle, config: dconfig, mermaid_js } = defaults;
    match diagram {
        Some(diagram) => Ok(
            Store {
                font: override_or_default(font, dfont),
                style: override_or_default(style, dstyle),
                config: override_or_default(config, dconfig),
                diagram,
                mermaid_js,
            },
        ),
        None => Err(StoreError::DiagramUnreadable),
    }
}

} // verus!
