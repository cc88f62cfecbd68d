use vstd::prelude::*;
use vstd::string::*;
use vstd::utf8::encode_utf8;

verus! {

/// Why a capture attempt produced no image.
pub enum CaptureError {
    /// The trigger arrived inside the debounce window.  A suppressed
    /// trigger is diagnosed once and emits no outcome event.
    CooldownActive,
    /// The operating system refused to start the external tool.
    ToolSpawnFailed { tool: String, detail: String },
    /// The tool ran but exited with a non-zero status; its stderr is kept.
    ToolExitedNonZero { tool: String, stderr: String },
    /// Every candidate of the fallback chain was absent or failed.
    NoToolAvailable { candidates: Vec<String> },
    /// The operating system denied the global hook at startup.
    ListenerRegistrationFailed { detail: String },
}

/// The fixed aggregated diagnostic when the whole fallback chain came up
/// empty.
pub open spec fn no_tool_message() -> Seq<char> {
    "No suitable screenshot tool found. Please install gnome-screenshot, scrot, imagemagick, spectacle, or flameshot."@
}

/// The one diagnostic line of each failure.
pub open spec fn error_message_of(e: CaptureError) -> Seq<char> {
    match e {
        CaptureError::CooldownActive => "Screenshot on cooldown - please wait a moment"@,
        CaptureError::ToolSpawnFailed { tool, detail } => "Failed to execute "@ + tool@ + ": "@
            + detail@,
        CaptureError::ToolExitedNonZero { tool, stderr } => tool@ + " failed: "@ + stderr@,
        CaptureError::NoToolAvailable { candidates } => no_tool_message(),
        CaptureError::ListenerRegistrationFailed { detail } => "Error listening to events: "@
            + detail@,
    }
}

impl CaptureError {
    /// The one diagnostic line of the failure.
    pub fn message(&self) -> (msg: String)
        ensures
            msg@ == error_message_of(*self),
    {
        match self {
            CaptureError::CooldownActive => String::from_str(
                "Screenshot on cooldown - please wait a moment",
            ),
            CaptureError::ToolSpawnFailed { tool, detail } => String::from_str(
                "Failed to execute ",
            ).concat(tool.as_str()).concat(": ").concat(detail.as_str()),
            CaptureError::ToolExitedNonZero { tool, stderr } => tool.clone().concat(
                " failed: ",
            ).concat(stderr.as_str()),
            CaptureError::NoToolAvailable { candidates } => String::from_str(
                "No suitable screenshot tool found. Please install gnome-screenshot, scrot, imagemagick, spectacle, or flameshot.",
            ),
            CaptureError::ListenerRegistrationFailed { detail } => String::from_str(
                "Error listening to events: ",
            ).concat(detail.as_str()),
        }
    }
}

/// What one dispatched capture request came to: the path of the written
/// image, or the reason it failed.
pub enum CaptureOutcome {
    Success { path: String },
    Failure { reason: String },
}

/// The failure outcome for a capture error, framed as the consumer sees it.
pub fn failure_outcome(e: &CaptureError) -> (o: CaptureOutcome)
    ensures
        o matches CaptureOutcome::Failure { reason } && reason@ == "Failed to take screenshot: "@
            + error_message_of(*e),
{
    CaptureOutcome::Failure {
        reason: String::from_str("Failed to take screenshot: ").concat(e.message().as_str()),
    }
}

/// The hexadecimal digit byte of `d` in lower case.
pub open spec fn hex_digit_byte(d: int) -> u8 {
    if d < 10 {
        (0x30 + d) as u8
    } else {
        (0x61 + (d - 10)) as u8
    }
}

/// JSON string escaping of one byte of UTF-8 text: quote and backslash get a
/// backslash, control bytes become `\u00XX`, every other byte stands as it
/// is.
pub open spec fn escaped_byte(b: u8) -> Seq<u8> {
    if b == 0x22 {
        seq![0x5cu8, 0x22u8]
    } else if b == 0x5c {
        seq![0x5cu8, 0x5cu8]
    } else if b < 0x20 {
        seq![
            0x5cu8,
            0x75u8,
            0x30u8,
            0x30u8,
            hex_digit_byte(b as int / 16),
            hex_digit_byte(b as int % 16),
        ]
    } else {
        seq![b]
    }
}

/// JSON string escaping of a byte sequence of UTF-8 text.
pub open spec fn escaped_bytes(s: Seq<u8>) -> Seq<u8>
    decreases s.len(),
{
    if s.len() == 0 {
        Seq::empty()
    } else {
        escaped_byte(s[0]) + escaped_bytes(s.drop_first())
    }
}

proof fn lemma_escaped_bytes_snoc(s: Seq<u8>, b: u8)
    ensures
        escaped_bytes(s.push(b)) == escaped_bytes(s) + escaped_byte(b),
    decreases s.len(),
{
    if s.len() == 0 {
        assert(s.push(b)[0] == b);
        assert(s.push(b).drop_first() =~= s);
        assert(escaped_bytes(s.push(b)) =~= escaped_bytes(s) + escaped_byte(b));
    } else {
        lemma_escaped_bytes_snoc(s.drop_first(), b);
        assert(s.push(b)[0] == s[0]);
        assert(s.push(b).drop_first() =~= s.drop_first().push(b));
        assert(escaped_byte(s[0]) + (escaped_bytes(s.drop_first()) + escaped_byte(b)) =~= (
        escaped_byte(s[0]) + escaped_bytes(s.drop_first())) + escaped_byte(b));
    }
}

fn hex_digit_exec(d: u8) -> (c: u8)
    requires
        d < 16,
    ensures
        c == hex_digit_byte(d as int),
{
    if d < 10 {
        0x30 + d
    } else {
        0x61 + (d - 10)
    }
}

fn append_escaped(out: &mut Vec<u8>, bytes: &[u8])
    ensures
        final(out)@ == old(out)@ + escaped_bytes(bytes@),
{
    let mut i: usize = 0;
    while i < bytes.len()
        invariant
            i <= bytes@.len(),
            out@ == old(out)@ + escaped_bytes(bytes@.take(i as int)),
        decreases bytes@.len() - i,
    {
        let b = bytes[i];
        let ghost pre: Seq<u8> = out@;
        if b == 0x22 {
            out.push(0x5c);
            out.push(0x22);
        } else if b == 0x5c {
            out.push(0x5c);
            out.push(0x5c);
        } else if b < 0x20 {
            out.push(0x5c);
            out.push(0x75);
            out.push(0x30);
            out.push(0x30);
            out.push(hex_digit_exec(b / 16));
            out.push(hex_digit_exec(b % 16));
        } else {
            out.push(b);
        }
        proof {
            assert(out@ =~= pre + escaped_byte(b));
            assert(bytes@.take(i + 1) =~= bytes@.take(i as int).push(b));
            lemma_escaped_bytes_snoc(bytes@.take(i as int), b);
            assert(out@ =~= old(out)@ + escaped_bytes(bytes@.take(i + 1)));
        }
        i += 1;
    }
    proof {
        assert(bytes@.take(bytes@.len() as int) =~= bytes@);
    }
}

/// The bytes `{"path":"` that open a success event.
pub open spec fn success_event_prefix() -> Seq<u8> {
    seq![0x7bu8, 0x22u8, 0x70u8, 0x61u8, 0x74u8, 0x68u8, 0x22u8, 0x3au8, 0x22u8]
}

/// The bytes `","success":true}` that close a success event.
pub open spec fn success_event_suffix() -> Seq<u8> {
    seq![
        0x22u8,
        0x2cu8,
        0x22u8,
        0x73u8,
        0x75u8,
        0x63u8,
        0x63u8,
        0x65u8,
        0x73u8,
        0x73u8,
        0x22u8,
        0x3au8,
        0x74u8,
        0x72u8,
        0x75u8,
        0x65u8,
        0x7du8,
    ]
}

/// The bytes `{"error":"` that open a failure event.
pub open spec fn failure_event_prefix() -> Seq<u8> {
    seq![0x7bu8, 0x22u8, 0x65u8, 0x72u8, 0x72u8, 0x6fu8, 0x72u8, 0x22u8, 0x3au8, 0x22u8]
}

/// The bytes `","success":false}` that close a failure event.
pub open spec fn failure_event_suffix() -> Seq<u8> {
    seq![
        0x22u8,
        0x2cu8,
        0x22u8,
        0x73u8,
        0x75u8,
        0x63u8,
        0x63u8,
        0x65u8,
        0x73u8,
        0x73u8,
        0x22u8,
        0x3au8,
        0x66u8,
        0x61u8,
        0x6cu8,
        0x73u8,
        0x65u8,
        0x7du8,
    ]
}

/// The UTF-8 bytes of the JSON event that reports the outcome to the
/// consumer: an object holding the path and `"success": true`, or the error
/// text and `"success": false`, the payload string JSON-escaped.
pub open spec fn event_bytes_of(o: CaptureOutcome) -> Seq<u8> {
    match o {
        CaptureOutcome::Success { path } => success_event_prefix() + escaped_bytes(
            encode_utf8(path@),
        ) + success_event_suffix(),
        CaptureOutcome::Failure { reason } => failure_event_prefix() + escaped_bytes(
            encode_utf8(reason@),
        ) + failure_event_suffix(),
    }
}

fn append_byte_seq(out: &mut Vec<u8>, bytes: &[u8])
    ensures
        final(out)@ == old(out)@ + bytes@,
{
    let mut i: usize = 0;
    while i < bytes.len()
        invariant
            i <= bytes@.len(),
            out@ == old(out)@ + bytes@.take(i as int),
        decreases bytes@.len() - i,
    {
        let b = bytes[i];
        out.push(b);
        proof {
            assert(bytes@.take(i + 1) =~= bytes@.take(i as int).push(b));
            assert(out@ =~= old(out)@ + bytes@.take(i + 1));
        }
        i += 1;
    }
    proof {
        assert(bytes@.take(bytes@.len() as int) =~= bytes@);
    }
}

/// The JSON event bytes of the outcome, ready for the result sink.
pub fn outcome_event_json(o: &CaptureOutcome) -> (event: Vec<u8>)
    ensures
        event@ == event_bytes_of(*o),
{
    let mut out: Vec<u8> = Vec::new();
    match o {
        CaptureOutcome::Success { path } => {
            let prefix: [u8; 9] = [0x7b, 0x22, 0x70, 0x61, 0x74, 0x68, 0x22, 0x3a, 0x22];
            let suffix: [u8; 17] = [
                0x22,
                0x2c,
                0x22,
                0x73,
                0x75,
                0x63,
                0x63,
                0x65,
                0x73,
                0x73,
                0x22,
                0x3a,
                0x74,
                0x72,
                0x75,
                0x65,
                0x7d,
            ];
            append_byte_seq(&mut out, prefix.as_slice());
            proof {
                assert(prefix@ =~= success_event_prefix());
            }
            append_escaped(&mut out, path.as_str().as_bytes());
            append_byte_seq(&mut out, suffix.as_slice());
            proof {
                assert(suffix@ =~= success_event_suffix());
                assert(out@ =~= event_bytes_of(*o));
            }
        },
        CaptureOutcome::Failure { reason } => {
            let prefix: [u8; 10] = [0x7b, 0x22, 0x65, 0x72, 0x72, 0x6f, 0x72, 0x22, 0x3a, 0x22];
            let suffix: [u8; 18] = [
                0x22,
                0x2c,
                0x22,
                0x73,
                0x75,
                0x63,
                0x63,
                0x65,
                0x73,
                0x73,
                0x22,
                0x3a,
                0x66,
                0x61,
                0x6c,
                0x73,
                0x65,
                0x7d,
            ];
            append_byte_seq(&mut out, prefix.as_slice());
            proof {
                assert(prefix@ =~= failure_event_prefix());
            }
            append_escaped(&mut out, reason.as_str().as_bytes());
            append_byte_seq(&mut out, suffix.as_slice());
            proof {
                assert(suffix@ =~= failure_event_suffix());
                assert(out@ =~= event_bytes_of(*o));
            }
        },
    }
    out
}

} // verus!
