//! The rules for reading a raw output buffer.
//!
//! The compiler answers with one buffer. A first byte other than zero opens
//! bytecode, and the whole buffer is the bytecode. A zero first byte marks a
//! failed compile, and the bytes behind it are the diagnostic.

use vstd::prelude::*;
use vstd::slice::slice_subrange;
use vstd::std_specs::cmp::PartialEqSpecImpl;
use vstd::utf8::{decode_utf8, valid_utf8};

verus! {

/// What a raw output buffer carries, told from its bytes alone.
#[derive(Clone, Copy, Debug, PartialEq, Eq, Structural)]
pub enum Verdict {
    /// The buffer is bytecode, its first byte included.
    Bytecode,
    /// The buffer is a zero byte followed by the text of a diagnostic.
    Diagnostic,
    /// The buffer starts with a zero byte and is too short to hold a diagnostic.
    NoDiagnostic,
}

/// The verdict on a buffer: a zero first byte marks a failed compile, and a
/// failed compile of at most two bytes has no text worth decoding.
pub open spec fn verdict_of(raw: Seq<u8>) -> Verdict
    recommends
        raw.len() > 0,
{
    if raw[0] != 0 {
        Verdict::Bytecode
    } else if raw.len() <= 2 {
        Verdict::NoDiagnostic
    } else {
        Verdict::Diagnostic
    }
}

/// Reads the first byte and the length of `raw` and says what it carries.
pub fn classify(raw: &[u8]) -> (verdict: Verdict)
    requires
        raw@.len() > 0,
    ensures
        verdict == verdict_of(raw@),
{
    if raw[0] != 0 {
        Verdict::Bytecode
    } else if raw.len() <= 2 {
        Verdict::NoDiagnostic
    } else {
        Verdict::Diagnostic
    }
}

/// The bytes of a diagnostic: everything behind the zero marker.
pub open spec fn diagnostic_bytes(raw: Seq<u8>) -> Seq<u8>
    recommends
        raw.len() > 0,
{
    raw.subrange(1, raw.len() as int)
}

/// The message reported when a failed compile carries no diagnostic.
pub open spec fn unknown_error_text() -> Seq<char> {
    "Unknown compilation error."@
}

/// The message reported when the compiler handed back no buffer.
pub open spec fn abnormal_failure_text() -> Seq<char> {
    "luau_compile returned null"@
}

/// The text that `String::from_utf8_lossy` gives for `bytes`.
pub uninterp spec fn lossy_text(bytes: Seq<u8>) -> Seq<char>;

/// Calls `String::from_utf8_lossy` and owns the text it gives.
///
/// Trusted, not proved: the text depends on the bytes alone; bytes that are
/// valid UTF-8 decode to the string they encode; and since every ill-formed
/// sequence is replaced by U+FFFD rather than dropped, bytes that are not
/// empty give text that is not empty.
#[verifier::external_body]
fn decode_lossy(bytes: &[u8]) -> (text: String)
    ensures
        text@ == lossy_text(bytes@),
        valid_utf8(bytes@) ==> text@ == decode_utf8(bytes@),
        bytes@.len() > 0 ==> text@.len() > 0,
{
    String::from_utf8_lossy(bytes).into_owned()
}

/// Why a compile gave no bytecode.
#[derive(Debug)]
pub enum CompileError {
    /// The compiler handed back no buffer at all. It promises one on every
    /// request, so this is a broken promise and not a verdict on the source.
    AbnormalFailure,
    /// The compiler rejected the source. The field is its diagnostic, or a
    /// fixed message where the buffer held none.
    CompilationError(String),
}

/// A `CompileError` as a plain value.
pub enum Failure {
    /// No buffer came back.
    Abnormal,
    /// The source was rejected, with this message.
    Rejected(Seq<char>),
}

impl Failure {
    /// The message that stands for this failure.
    pub open spec fn text(self) -> Seq<char> {
        match self {
            Failure::Abnormal => abnormal_failure_text(),
            Failure::Rejected(message) => message,
        }
    }
}

impl View for CompileError {
    type V = Failure;

    open spec fn view(&self) -> Failure {
        match self {
            CompileError::AbnormalFailure => Failure::Abnormal,
            CompileError::CompilationError(message) => Failure::Rejected(message@),
        }
    }
}

impl Clone for CompileError {
    fn clone(&self) -> (copy: CompileError)
        ensures
            copy@ == self@,
    {
        match self {
            CompileError::AbnormalFailure => CompileError::AbnormalFailure,
            CompileError::CompilationError(message) => CompileError::CompilationError(
                message.clone(),
            ),
        }
    }
}

impl PartialEq for CompileError {
    fn eq(&self, other: &CompileError) -> (same: bool) {
        match (self, other) {
            (CompileError::AbnormalFailure, CompileError::AbnormalFailure) => true,
            (CompileError::CompilationError(a), CompileError::CompilationError(b)) => *a == *b,
            _ => false,
        }
    }
}

impl PartialEqSpecImpl for CompileError {
    open spec fn obeys_eq_spec() -> bool {
        true
    }

    open spec fn eq_spec(&self, other: &CompileError) -> bool {
        self@ == other@
    }
}

impl CompileError {
    /// The error of a failed compile: it carries the decoded diagnostic, or
    /// the fixed message where the buffer held none.
    pub fn from_diagnostic(diagnostic: Option<String>) -> (error: CompileError)
        ensures
            error@ == Failure::Rejected(
                match diagnostic {
                    Some(text) => text@,
                    None => unknown_error_text(),
                },
            ),
    {
        match diagnostic {
            Some(text) => CompileError::CompilationError(text),
            None => CompileError::CompilationError(String::from_str("Unknown compilation error.")),
        }
    }

    /// The message of this error as text of its own.
    pub fn message(&self) -> (text: String)
        ensures
            text@ == self@.text(),
    {
        match self {
            CompileError::AbnormalFailure => String::from_str("luau_compile returned null"),
            CompileError::CompilationError(message) => message.clone(),
        }
    }

    /// Whether the source was at fault, so that a changed source may compile.
    pub fn is_recoverable(&self) -> (yes: bool)
        ensures
            yes == (self@ is Rejected),
    {
        match self {
            CompileError::AbnormalFailure => false,
            CompileError::CompilationError(_) => true,
        }
    }
}

/// What a request comes to, given what the compiler handed back: `None`
/// where it handed back no buffer, else the buffer's bytes.
pub open spec fn decoded(raw: Option<Seq<u8>>) -> Result<Seq<u8>, Failure> {
    match raw {
        None => Err(Failure::Abnormal),
        Some(bytes) => match verdict_of(bytes) {
            Verdict::Bytecode => Ok(bytes),
            Verdict::NoDiagnostic => Err(Failure::Rejected(unknown_error_text())),
            Verdict::Diagnostic => Err(Failure::Rejected(lossy_text(diagnostic_bytes(bytes)))),
        },
    }
}

/// What the compiler handed back as a plain value.
pub open spec fn buffer_view(raw: Option<Vec<u8>>) -> Option<Seq<u8>> {
    match raw {
        None => None,
        Some(bytes) => Some(bytes@),
    }
}

/// An outcome as a plain value.
pub open spec fn outcome_view(outcome: Result<Vec<u8>, CompileError>) -> Result<Seq<u8>, Failure> {
    match outcome {
        Ok(bytecode) => Ok(bytecode@),
        Err(error) => Err(error@),
    }
}

/// Turns what the compiler handed back into bytecode or an error.
///
/// Bytecode comes back whole, first byte included, exactly when a buffer
/// came and its first byte is not zero. A buffer that opens with zero is
/// never handed on as bytecode: it gives a `CompilationError` whose message
/// is never empty, and is the text behind the marker wherever that text is
/// valid UTF-8. No buffer gives `AbnormalFailure`.
pub fn decode_output(raw: Option<Vec<u8>>) -> (outcome: Result<Vec<u8>, CompileError>)
    requires
        raw matches Some(bytes) ==> bytes@.len() > 0,
    ensures
        outcome_view(outcome) == decoded(buffer_view(raw)),
        outcome is Ok <==> raw is Some && raw->0@[0] != 0,
        outcome matches Ok(bytecode) ==> bytecode@ == raw->0@ && bytecode@.len() > 0
            && bytecode@[0] != 0,
        outcome matches Err(CompileError::AbnormalFailure) <==> raw is None,
        outcome matches Err(CompileError::CompilationError(message)) ==> message@.len() > 0,
        outcome matches Err(CompileError::CompilationError(message)) ==> (raw->0@.len() > 2
            && valid_utf8(diagnostic_bytes(raw->0@)) ==> message@ == decode_utf8(
            diagnostic_bytes(raw->0@),
        )),
{
    match raw {
        None => Err(CompileError::AbnormalFailure),
        Some(bytes) => match classify(bytes.as_slice()) {
            Verdict::Bytecode => Ok(bytes),
            Verdict::NoDiagnostic => {
                proof {
                    reveal_strlit("Unknown compilation error.");
                }
                Err(CompileError::from_diagnostic(None))
            },
            Verdict::Diagnostic => {
                let behind_marker = slice_subrange(bytes.as_slice(), 1, bytes.len());
                Err(CompileError::from_diagnostic(Some(decode_lossy(behind_marker))))
            },
        },
    }
}

/// Decoding is repeatable: whatever two runs of `decode_output` make of one
/// buffer is the same outcome, and bytecode is the same byte for byte.
pub proof fn lemma_decoding_is_repeatable(
    raw: Option<Vec<u8>>,
    first: Result<Vec<u8>, CompileError>,
    second: Result<Vec<u8>, CompileError>,
)
    requires
        outcome_view(first) == decoded(buffer_view(raw)),
        outcome_view(second) == decoded(buffer_view(raw)),
    ensures
        outcome_view(first) == outcome_view(second),
        first matches Ok(bytecode) ==> second is Ok && second->Ok_0@ == bytecode@,
{
}

} // verus!
