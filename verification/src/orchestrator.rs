//! The render orchestrator: a state machine that drives a headless browser
//! through launch, navigation, render-completion detection and capture.
//!
//! The machine only decides; the binary around the library performs each
//! [`BrowserAction`] against the real browser and hands the outcome back as a
//! [`StepResult`]. Browser work is inherently fallible, so every transition
//! states what happens on failure as well: each failing step aborts the
//! conversion with its own distinguishable error.

use vstd::prelude::*;
use vstd::slice::{slice_subrange, slice_to_vec};
use vstd::string::{StrSliceExecFns, StringExecFns, StringSliceAdditionalSpecFns};

use crate::format::ImageFormat;

verus! {

/// The byte value of the double-quote character `"`.
pub const QUOTE: u8 = 34;

/// The byte value of the backslash character `\`.
pub const BACKSLASH: u8 = 92;

/// The byte value of the slash character `/`.
pub const SLASH: u8 = 47;

/// The decimal digits of `n` in ASCII, most significant first, with no
/// leading zeros (a single `0` for zero).
pub open spec fn dec_bytes(n: nat) -> Seq<u8>
    decreases n,
{
    if n < 10 {
        seq![(48 + n) as u8]
    } else {
        dec_bytes(n / 10) + seq![(48 + n % 10) as u8]
    }
}

/// Append the decimal digits of `n` to `out`.
fn push_dec_digits(out: &mut Vec<u8>, n: u16)
    ensures
        final(out)@ == old(out)@ + dec_bytes(n as nat),
    decreases n,
{
    if n < 10 {
        out.push(48 + n as u8);
        proof {
            assert(out@ =~= old(out)@ + dec_bytes(n as nat));
        }
    } else {
        push_dec_digits(out, n / 10);
        out.push(48 + (n % 10) as u8);
        proof {
            assert(out@ =~= old(out)@ + dec_bytes(n as nat));
        }
    }
}

/// The root URL of the asset server on the loopback interface, as bytes.
pub open spec fn spec_render_url(port: u16) -> Seq<u8> {
    "http://127.0.0.1:".spec_bytes() + dec_bytes(port as nat) + seq![SLASH]
}

/// Build the root URL of the asset server for the given port.
pub fn render_url(port: u16) -> (url: Vec<u8>)
    ensures
        url@ == spec_render_url(port),
{
    let mut url: Vec<u8> = "http://127.0.0.1:".as_bytes_vec();
    push_dec_digits(&mut url, port);
    url.push(SLASH);
    proof {
        assert(url@ =~= spec_render_url(port));
    }
    url
}

/// `s` with every two-byte escape `\"` replaced by a plain `"`.
pub open spec fn unescape_quotes(s: Seq<u8>) -> Seq<u8>
    decreases s.len(),
{
    if s.len() >= 2 && s[0] == BACKSLASH && s[1] == QUOTE {
        seq![QUOTE] + unescape_quotes(s.skip(2))
    } else if s.len() >= 1 {
        seq![s[0]] + unescape_quotes(s.skip(1))
    } else {
        Seq::<u8>::empty()
    }
}

/// Turn a raw script-evaluation result into the SVG document bytes.
///
/// The evaluation protocol hands string results back JSON-double-quoted, with
/// embedded quotes escaped as `\"`. This restores the escaped quotes and then
/// strips exactly the leading and trailing quote characters. When fewer than
/// two characters remain after unescaping there is nothing to strip, so no
/// SVG can be extracted and the result is `None`.
pub fn unescape_and_strip(raw: &[u8]) -> (r: Option<Vec<u8>>)
    ensures
        (match r {
            Some(v) => unescape_quotes(raw@).len() >= 2 && v@ == unescape_quotes(raw@).subrange(
                1,
                unescape_quotes(raw@).len() - 1,
            ),
            None => unescape_quotes(raw@).len() < 2,
        }),
{
    let n = raw.len();
    let mut out: Vec<u8> = Vec::new();
    let mut i: usize = 0;
    proof {
        assert(raw@.skip(0) =~= raw@);
        assert(out@ + unescape_quotes(raw@) =~= unescape_quotes(raw@));
    }
    while i < n
        invariant
            n == raw@.len(),
            i <= n,
            unescape_quotes(raw@) == out@ + unescape_quotes(raw@.skip(i as int)),
        decreases n - i,
    {
        proof {
            assert(raw@.skip(i as int)[0] == raw@[i as int]);
        }
        if raw[i] == BACKSLASH && i + 1 < n && raw[i + 1] == QUOTE {
            out.push(QUOTE);
            proof {
                assert(raw@.skip(i as int).skip(2) =~= raw@.skip(i as int + 2));
                assert(out@ + unescape_quotes(raw@.skip(i as int + 2)) =~= out@.drop_last()
                    + unescape_quotes(raw@.skip(i as int)));
            }
            i += 2;
        } else {
            out.push(raw[i]);
            proof {
                assert(raw@.skip(i as int).skip(1) =~= raw@.skip(i as int + 1));
                assert(out@ + unescape_quotes(raw@.skip(i as int + 1)) =~= out@.drop_last()
                    + unescape_quotes(raw@.skip(i as int)));
            }
            i += 1;
        }
    }
    proof {
        assert(raw@.skip(n as int) =~= Seq::<u8>::empty());
        assert(out@ + Seq::<u8>::empty() =~= out@);
    }
    if out.len() >= 2 {
        let end = out.len() - 1;
        Some(slice_to_vec(slice_subrange(out.as_slice(), 1, end)))
    } else {
        None
    }
}

/// One operation the driving loop performs against the real browser.
pub enum BrowserAction {
    /// Launch a headless browser instance with the given window size.
    Launch { width: u32, height: u32 },
    /// Open a new tab in the launched browser.
    OpenTab,
    /// Navigate the tab to the given URL and wait until navigation completes.
    Navigate { url: Vec<u8> },
    /// Block until the initial document has loaded.
    WaitForLoad,
    /// Poll, with a bounded timeout, until an element matching the selector
    /// exists in the page.
    WaitForElement { selector: String },
    /// Evaluate a script against the awaited element returning its inner
    /// HTML as a string.
    EvaluateInnerHtml,
    /// Capture a PNG screenshot of the awaited element's bounding box.
    CaptureScreenshot,
}

/// The outcome of performing the pending [`BrowserAction`], handed back by
/// the driving loop.
pub enum StepResult {
    /// The pending action succeeded and carries no payload.
    Succeeded,
    /// Script evaluation succeeded: the raw, JSON-double-quoted result bytes,
    /// or `None` when the evaluation yielded no value.
    SucceededValue { value: Option<Vec<u8>> },
    /// The screenshot succeeded with the given PNG bytes.
    SucceededBytes { bytes: Vec<u8> },
    /// The pending action failed.
    Failed,
}

/// Why a conversion attempt was aborted. Every error is terminal: nothing in
/// the pipeline retries.
#[derive(Clone, Copy, Debug, PartialEq, Eq, Structural)]
pub enum RenderError {
    /// The browser could not be launched.
    LaunchFailed,
    /// A new tab could not be opened.
    TabFailed,
    /// Navigation to the asset server failed.
    NavigateFailed,
    /// The initial document did not finish loading.
    LoadFailed,
    /// The awaited element never appeared before the timeout.
    ElementNotFound,
    /// The inner-HTML script evaluation failed.
    EvalFailed,
    /// The evaluation yielded no usable SVG text.
    ExtractFailed,
    /// The screenshot could not be captured.
    ScreenshotFailed,
}

impl RenderError {
    /// The human-readable message for this error.
    pub open spec fn spec_message(self) -> Seq<char> {
        match self {
            RenderError::LaunchFailed => "failed to launch browser"@,
            RenderError::TabFailed => "failed to open tab"@,
            RenderError::NavigateFailed => "failed to navigate to page"@,
            RenderError::LoadFailed => "failed to load page"@,
            RenderError::ElementNotFound => "failed to find diagram element"@,
            RenderError::EvalFailed => "failed to evaluate script"@,
            RenderError::ExtractFailed => "failed to extract SVG"@,
            RenderError::ScreenshotFailed => "failed to capture screenshot"@,
        }
    }

    /// The human-readable message for this error.
    pub fn message(&self) -> (m: String)
        ensures
            m@ == self.spec_message(),
    {
        match self {
            RenderError::LaunchFailed => String::from_str("failed to launch browser"),
            RenderError::TabFailed => String::from_str("failed to open tab"),
            RenderError::NavigateFailed => String::from_str("failed to navigate to page"),
            RenderError::LoadFailed => String::from_str("failed to load page"),
            RenderError::ElementNotFound => String::from_str("failed to find diagram element"),
            RenderError::EvalFailed => String::from_str("failed to evaluate script"),
            RenderError::ExtractFailed => String::from_str("failed to extract SVG"),
            RenderError::ScreenshotFailed => String::from_str("failed to capture screenshot"),
        }
    }
}

/// Where the orchestration currently stands: which action's outcome it is
/// waiting for, or how it ended.
#[derive(Clone, Copy, Debug, PartialEq, Eq, Structural)]
pub enum Phase {
    /// Waiting for the browser launch.
    AwaitLaunch,
    /// Waiting for the new tab.
    AwaitTab,
    /// Waiting for navigation to the asset server.
    AwaitNavigate,
    /// Waiting for the initial document load.
    AwaitLoad,
    /// Waiting for the render-completion element.
    AwaitElement,
    /// Waiting for the inner-HTML evaluation (SVG export).
    AwaitEval,
    /// Waiting for the screenshot (PNG export).
    AwaitShot,
    /// The conversion finished with image bytes.
    Finished,
    /// The conversion was aborted with an error.
    Aborted,
}

/// The DOM selector whose appearance gates extraction for the format.
///
/// SVG export only needs the container to exist, because inner-HTML
/// extraction takes whatever markup is present. PNG export waits for the
/// rendering library's own SVG root inside the container, a stronger signal
/// that layout has completed, because a screenshot must capture visually
/// complete content.
pub open spec fn spec_selector(format: ImageFormat) -> Seq<char> {
    match format {
        ImageFormat::Svg => "div#mermaid"@,
        ImageFormat::Png => "div#mermaid > svg#svg"@,
    }
}

/// Which step results the driving loop may hand back in each phase: a
/// payload-free success or a failure for every waiting phase, except that
/// evaluation carries its raw value and the screenshot its bytes. Terminal
/// phases accept no further result.
pub open spec fn phase_expects(p: Phase, result: StepResult) -> bool {
    match p {
        Phase::AwaitLaunch | Phase::AwaitTab | Phase::AwaitNavigate | Phase::AwaitLoad
            | Phase::AwaitElement => result is Succeeded || result is Failed,
        Phase::AwaitEval => result is SucceededValue || result is Failed,
        Phase::AwaitShot => result is SucceededBytes || result is Failed,
        Phase::Finished | Phase::Aborted => false,
    }
}

/// What the orchestrator decided after one step result: the next action to
/// perform, the finished image, or a terminal error.
pub enum StepOutcome {
    /// Perform this action next and hand back its result.
    Next { action: BrowserAction },
    /// The conversion is complete with these image bytes.
    Complete { image: Vec<u8> },
    /// The conversion is aborted with this error.
    Abort { error: RenderError },
}

/// The render orchestrator's immutable parameters and current phase.
pub struct Orchestrator {
    /// Requested viewport width in pixels.
    pub width: u32,
    /// Requested viewport height in pixels; the captured image may be
    /// shorter when the rendered diagram is.
    pub height: u32,
    /// The target image format.
    pub format: ImageFormat,
    /// The asset server's port on the loopback interface.
    pub port: u16,
    /// Where the orchestration currently stands.
    pub phase: Phase,
}

impl Orchestrator {
    /// Start a conversion: the machine begins by launching the browser with
    /// the requested window size.
    pub fn new(width: u32, height: u32, format: ImageFormat, port: u16) -> (r: (
        Orchestrator,
        BrowserAction,
    ))
        ensures
            r.0 == (Orchestrator { width, height, format, port, phase: Phase::AwaitLaunch }),
            (r.1 matches BrowserAction::Launch { width: w, height: h } && w == width && h
                == height),
    {
        (
            Orchestrator { width, height, format, port, phase: Phase::AwaitLaunch },
            BrowserAction::Launch { width, height },
        )
    }

    /// Start an export: select the target format from the output path's file
    /// extension (SVG for an `svg` extension ignoring ASCII case, PNG for any
    /// other, including none) and start a conversion for it. The returned
    /// image bytes are then written to that output path.
    pub fn for_output_path(output: &str, width: u32, height: u32, port: u16) -> (r: (
        Orchestrator,
        BrowserAction,
    ))
        ensures
            r.0 == (Orchestrator {
                width,
                height,
                format: crate::format::spec_format_of(output@),
                port,
                phase: Phase::AwaitLaunch,
            }),
            (r.1 matches BrowserAction::Launch { width: w, height: h } && w == width && h
                == height),
    {
        Orchestrator::new(width, height, ImageFormat::from_path(output), port)
    }

    /// Advance the machine on the outcome of the pending action.
    ///
    /// Success walks the fixed sequence launch, tab, navigate, load, then the
    /// format's own gate: for SVG, wait for the container element and
    /// unescape-and-strip the evaluated inner HTML; for PNG, wait for the
    /// nested SVG root and take its screenshot. A failure in any phase aborts
    /// with that phase's error; an evaluation that yields no value, or too
    /// little text to strip, aborts with `ExtractFailed`.
    pub fn on_result(&mut self, result: StepResult) -> (out: StepOutcome)
        requires
            phase_expects(old(self).phase, result),
        ensures
            final(self).width == old(self).width,
            final(self).height == old(self).height,
            final(self).format == old(self).format,
            final(self).port == old(self).port,
            (old(self).phase is AwaitLaunch && result is Succeeded) ==> ((out
                matches StepOutcome::Next { action } && action is OpenTab)
                && final(self).phase is AwaitTab),
            (old(self).phase is AwaitLaunch && result is Failed) ==> ((out
                matches StepOutcome::Abort { error } && error is LaunchFailed)
                && final(self).phase is Aborted),
            (old(self).phase is AwaitTab && result is Succeeded) ==> ((out
                matches StepOutcome::Next { action } && (action matches BrowserAction::Navigate {
                url,
            } && url@ == spec_render_url(old(self).port))) && final(self).phase is AwaitNavigate),
            (old(self).phase is AwaitTab && result is Failed) ==> ((out
                matches StepOutcome::Abort { error } && error is TabFailed)
                && final(self).phase is Aborted),
            (old(self).phase is AwaitNavigate && result is Succeeded) ==> ((out
                matches StepOutcome::Next { action } && action is WaitForLoad)
                && final(self).phase is AwaitLoad),
            (old(self).phase is AwaitNavigate && result is Failed) ==> ((out
                matches StepOutcome::Abort { error } && error is NavigateFailed)
                && final(self).phase is Aborted),
            (old(self).phase is AwaitLoad && result is Succeeded) ==> ((out
                matches StepOutcome::Next { action } && (action
                matches BrowserAction::WaitForElement { selector } && selector@ == spec_selector(
                old(self).format,
            ))) && final(self).phase is AwaitElement),
            (old(self).phase is AwaitLoad && result is Failed) ==> ((out
                matches StepOutcome::Abort { error } && error is LoadFailed)
                && final(self).phase is Aborted),
            (old(self).phase is AwaitElement && result is Succeeded && old(self).format is Svg)
                ==> ((out matches StepOutcome::Next { action } && action is EvaluateInnerHtml)
                && final(self).phase is AwaitEval),
            (old(self).phase is AwaitElement && result is Succeeded && old(self).format is Png)
                ==> ((out matches StepOutcome::Next { action } && action is CaptureScreenshot)
                && final(self).phase is AwaitShot),
            (old(self).phase is AwaitElement && result is Failed) ==> ((out
                matches StepOutcome::Abort { error } && error is ElementNotFound)
                && final(self).phase is Aborted),
            old(self).phase is AwaitEval ==> (result matches StepResult::SucceededValue {
                value: Some(raw),
            } ==> ({
                let u = unescape_quotes(raw@);
                if u.len() >= 2 {
                    (out matches StepOutcome::Complete { image } && image@ == u.subrange(
                        1,
                        u.len() - 1,
                    )) && final(self).phase is Finished
                } else {
                    (out matches StepOutcome::Abort { error } && error is ExtractFailed)
                        && final(self).phase is Aborted
                }
            })),
            (old(self).phase is AwaitEval && result matches StepResult::SucceededValue {
                value: None,
            }) ==> ((out matches StepOutcome::Abort { error } && error is ExtractFailed)
                && final(self).phase is Aborted),
            (old(self).phase is AwaitEval && result is Failed) ==> ((out
                matches StepOutcome::Abort { error } && error is EvalFailed)
                && final(self).phase is Aborted),
            old(self).phase is AwaitShot ==> (result matches StepResult::SucceededBytes { bytes }
                ==> ((out matches StepOutcome::Complete { image } && image@ == bytes@)
                && final(self).phase is Finished)),
            (old(self).phase is AwaitShot && result is Failed) ==> ((out
                matches StepOutcome::Abort { error } && error is ScreenshotFailed)
                && final(self).phase is Aborted),
    {
        let phase = self.phase;
        match phase {
            Phase::AwaitLaunch => match result {
                StepResult::Succeeded => {
                    self.phase = Phase::AwaitTab;
                    StepOutcome::Next { action: BrowserAction::OpenTab }
                },
                StepResult::Failed => {
                    self.phase = Phase::Aborted;
                    StepOutcome::Abort { error: RenderError::LaunchFailed }
                },
                _ => unreached(),
            },
            Phase::AwaitTab => match result {
                StepResult::Succeeded => {
                    self.phase = Phase::AwaitNavigate;
                    StepOutcome::Next {
                        action: BrowserAction::Navigate { url: render_url(self.port) },
                    }
                },
                StepResult::Failed => {
                    self.phase = Phase::Aborted;
                    StepOutcome::Abort { error: RenderError::TabFailed }
                },
                _ => unreached(),
            },
            Phase::AwaitNavigate => match result {
                StepResult::Succeeded => {
                    self.phase = Phase::AwaitLoad;
                    StepOutcome::Next { action: BrowserAction::WaitForLoad }
                },
                StepResult::Failed => {
                    self.phase = Phase::Aborted;
                    StepOutcome::Abort { error: RenderError::NavigateFailed }
                },
                _ => unreached(),
            },
            Phase::AwaitLoad => match result {
                StepResult::Succeeded => {
                    self.phase = Phase::AwaitElement;
                    let selector = match self.format {
                        ImageFormat::Svg => String::from_str("div#mermaid"),
                        ImageFormat::Png => String::from_str("div#mermaid > svg#svg"),
                    };
                    StepOutcome::Next { action: BrowserAction::WaitForElement { selector } }
                },
                StepResult::Failed => {
                    self.phase = Phase::Aborted;
                    StepOutcome::Abort { error: RenderError::LoadFailed }
                },
                _ => unreached(),
            },
            Phase::AwaitElement => match result {
                StepResult::Succeeded => match self.format {
                    ImageFormat::Svg => {
                        self.phase = Phase::AwaitEval;
                        StepOutcome::Next { action: BrowserAction::EvaluateInnerHtml }
                    },
                    ImageFormat::Png => {
                        self.phase = Phase::AwaitShot;
                        StepOutcome::Next { action: BrowserAction::CaptureScreenshot }
                    },
                },
                StepResult::Failed => {
                    self.phase = Phase::Aborted;
                    StepOutcome::Abort { error: RenderError::ElementNotFound }
                },
                _ => unreached(),
            },
            Phase::AwaitEval => match result {
                StepResult::SucceededValue { value } => match value {
                    Some(raw) => match unescape_and_strip(raw.as_slice()) {
                        Some(image) => {
                            self.phase = Phase::Finished;
                            StepOutcome::Complete { image }
                        },
                        None => {
                            self.phase = Phase::Aborted;
                            StepOutcome::Abort { error: RenderError::ExtractFailed }
                        },
                    },
                    None => {
                        self.phase = Phase::Aborted;
                        StepOutcome::Abort { error: RenderError::ExtractFailed }
                    },
                },
                StepResult::Failed => {
                    self.phase = Phase::Aborted;
                    StepOutcome::Abort { error: RenderError::EvalFailed }
                },
                _ => unreached(),
            },
            Phase::AwaitShot => match result {
                StepResult::SucceededBytes { bytes } => {
                    self.phase = Phase::Finished;
                    StepOutcome::Complete { image: bytes }
                },
                StepResult::Failed => {
                    self.phase = Phase::Aborted;
                    StepOutcome::Abort { error: RenderError::ScreenshotFailed }
                },
                _ => unreached(),
            },
            Phase::Finished => unreached(),
            Phase::Aborted => unreached(),
        }
    }
}

} // verus!
