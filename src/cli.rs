//! What the command-line front end decides: the quality argument, whether
//! an existing output may be replaced, and how a confirmation is read.

use vstd::prelude::*;

use crate::decimal::{parse_u8, parsed_u8};
use crate::http::opt_bytes;
use crate::pipeline::{valid_quality, CompressionError};

verus! {

/// Quality used when the command line names none.
pub const DEFAULT_CLI_QUALITY: u8 = 75;

/// Why a command-line run failed; every one ends the run with a non-zero status.
#[derive(Clone, Copy, Debug, PartialEq, Eq, Structural)]
pub enum CliError {
    /// The input path does not exist or is not a regular file.
    InputNotFile,
    /// The output exists, overwriting was not allowed, and nobody can be asked.
    OutputExists,
    /// The quality is not a whole number in `[1, 100]`.
    InvalidQuality,
    /// The pipeline failed.
    Compression(CompressionError),
    /// Reading the input, creating the output's directories or writing it failed.
    Io,
}

impl CliError {
    pub open spec fn message_spec(&self) -> Seq<char> {
        match self {
            CliError::InputNotFile => "Input path does not exist or is not a file."@,
            CliError::OutputExists =>
                "Output file already exists; pass --overwrite to replace it."@,
            CliError::InvalidQuality => "Quality must be a whole number from 1 to 100."@,
            CliError::Compression(e) => e.message_spec(),
            CliError::Io => "A file system operation failed."@,
        }
    }

    /// A description of what went wrong.
    pub fn message(&self) -> (r: String)
        ensures
            r@ == self.message_spec(),
    {
        match self {
            CliError::InputNotFile => "Input path does not exist or is not a file.".to_owned(),
            CliError::OutputExists =>
                "Output file already exists; pass --overwrite to replace it.".to_owned(),
            CliError::InvalidQuality => "Quality must be a whole number from 1 to 100.".to_owned(),
            CliError::Compression(e) => e.message(),
            CliError::Io => "A file system operation failed.".to_owned(),
        }
    }
}

/// The quality named by the command line, or the default where it names none.
pub open spec fn cli_quality_spec(arg: Option<Seq<u8>>) -> Result<u8, CliError> {
    match arg {
        None => Ok(DEFAULT_CLI_QUALITY),
        Some(s) => match parsed_u8(s) {
            Some(q) => if valid_quality(q) { Ok(q) } else { Err(CliError::InvalidQuality) },
            None => Err(CliError::InvalidQuality),
        },
    }
}

/// Checks the quality argument; unlike the HTTP header, a bad value is an error.
pub fn cli_quality(arg: Option<&[u8]>) -> (r: Result<u8, CliError>)
    ensures
        r == cli_quality_spec(opt_bytes(arg)),
{
    match arg {
        None => Ok(DEFAULT_CLI_QUALITY),
        Some(b) => match parse_u8(b) {
            Some(q) => if 1 <= q && q <= 100 { Ok(q) } else { Err(CliError::InvalidQuality) },
            None => Err(CliError::InvalidQuality),
        },
    }
}

/// What a command-line run does next.
#[derive(Clone, Copy, Debug, PartialEq, Eq, Structural)]
pub enum CliStep {
    /// Read the input, compress it, create the output's directories, write it.
    Compress,
    /// Ask whether the existing output may be replaced.
    Confirm,
    /// Stop with success and write nothing.
    Decline,
    /// Stop with this error and write nothing.
    Fail(CliError),
}

impl CliStep {
    /// Only the compress step reads the input, creates directories or
    /// writes the output; every other step leaves the file system as it was.
    pub open spec fn touches_files(&self) -> bool {
        self is Compress
    }

    pub open spec fn exit_code_spec(&self) -> Option<i32> {
        match self {
            CliStep::Decline => Some(0),
            CliStep::Fail(_) => Some(1),
            _ => None,
        }
    }

    /// The process's exit status where this step ends the run, `None` where
    /// the run goes on.
    pub fn exit_code(&self) -> (r: Option<i32>)
        ensures
            r == self.exit_code_spec(),
    {
        match self {
            CliStep::Decline => Some(0),
            CliStep::Fail(_) => Some(1),
            _ => None,
        }
    }
}

pub open spec fn first_step_spec(
    input_is_file: bool,
    output_exists: bool,
    overwrite: bool,
    interactive: bool,
) -> CliStep {
    if !input_is_file {
        CliStep::Fail(CliError::InputNotFile)
    } else if !output_exists || overwrite {
        CliStep::Compress
    } else if interactive {
        CliStep::Confirm
    } else {
        CliStep::Fail(CliError::OutputExists)
    }
}

/// The first step of a run, from what is known of its paths and terminal.
pub fn first_step(input_is_file: bool, output_exists: bool, overwrite: bool, interactive: bool) -> (r:
    CliStep)
    ensures
        r == first_step_spec(input_is_file, output_exists, overwrite, interactive),
        !input_is_file ==> r == CliStep::Fail(CliError::InputNotFile),
{
    if !input_is_file {
        CliStep::Fail(CliError::InputNotFile)
    } else if !output_exists || overwrite {
        CliStep::Compress
    } else if interactive {
        CliStep::Confirm
    } else {
        CliStep::Fail(CliError::OutputExists)
    }
}

/// A run against an existing output, without permission to overwrite and
/// with nobody to ask, ends at its first step with a non-zero status and
/// without touching any file, so the output keeps its bytes.
pub proof fn lemma_existing_output_untouched(input_is_file: bool)
    ensures
        first_step_spec(input_is_file, true, false, false) is Fail,
        first_step_spec(input_is_file, true, false, false).exit_code_spec() is Some,
        first_step_spec(input_is_file, true, false, false).exit_code_spec()->0 != 0,
        !first_step_spec(input_is_file, true, false, false).touches_files(),
{
}

/// A run whose input is missing stops with an error at its first step,
/// before any directory is created or any file written.
pub proof fn lemma_missing_input_fails_first(output_exists: bool, overwrite: bool, interactive: bool)
    ensures
        first_step_spec(false, output_exists, overwrite, interactive) == CliStep::Fail(
            CliError::InputNotFile,
        ),
        first_step_spec(false, output_exists, overwrite, interactive).exit_code_spec() == Some(
            1i32,
        ),
        !first_step_spec(false, output_exists, overwrite, interactive).touches_files(),
{
}

pub open spec fn is_space(c: u8) -> bool {
    c == 32 || c == 9 || c == 10 || c == 13
}

pub open spec fn ascii_lower(c: u8) -> u8 {
    if 65 <= c <= 90 {
        (c + 32) as u8
    } else {
        c
    }
}

pub open spec fn trim_start(s: Seq<u8>) -> Seq<u8>
    decreases s.len(),
{
    if s.len() > 0 && is_space(s[0]) {
        trim_start(s.drop_first())
    } else {
        s
    }
}

pub open spec fn trim_end(s: Seq<u8>) -> Seq<u8>
    decreases s.len(),
{
    if s.len() > 0 && is_space(s.last()) {
        trim_end(s.drop_last())
    } else {
        s
    }
}

/// "y", "yes", "s", "si" or "sí", in any case of ASCII letters.
pub open spec fn is_yes_word(w: Seq<u8>) -> bool {
    ||| w.len() == 1 && (ascii_lower(w[0]) == 121 || ascii_lower(w[0]) == 115)
    ||| w.len() == 2 && ascii_lower(w[0]) == 115 && ascii_lower(w[1]) == 105
    ||| w.len() == 3 && ascii_lower(w[0]) == 121 && ascii_lower(w[1]) == 101 && ascii_lower(w[2])
        == 115
    ||| w.len() == 3 && ascii_lower(w[0]) == 115 && w[1] == 0xC3 && w[2] == 0xAD
}

/// Whether an answer, with surrounding white space ignored, says yes in
/// English or in Spanish.
pub open spec fn is_affirmative(answer: Seq<u8>) -> bool {
    is_yes_word(trim_end(trim_start(answer)))
}

fn lower(c: u8) -> (r: u8)
    ensures
        r == ascii_lower(c),
{
    if 65 <= c && c <= 90 {
        c + 32
    } else {
        c
    }
}

/// The step after the user answered the confirmation question.
pub fn answer_step(answer: &[u8]) -> (r: CliStep)
    ensures
        r == (if is_affirmative(answer@) {
            CliStep::Compress
        } else {
            CliStep::Decline
        }),
{
    let n = answer.len();
    let mut lo: usize = 0;
    assert(answer@.subrange(0, n as int) =~= answer@);
    while lo < n && (answer[lo] == 32 || answer[lo] == 9 || answer[lo] == 10 || answer[lo] == 13)
        invariant
            lo <= n,
            n == answer@.len(),
            trim_start(answer@) == trim_start(answer@.subrange(lo as int, n as int)),
        decreases n - lo,
    {
        assert(answer@.subrange(lo as int, n as int).drop_first() =~= answer@.subrange(
            lo + 1,
            n as int,
        ));
        lo = lo + 1;
    }
    assert(trim_start(answer@) == answer@.subrange(lo as int, n as int));
    let ghost t = answer@.subrange(lo as int, n as int);
    let mut hi: usize = n;
    while hi > lo && (answer[hi - 1] == 32 || answer[hi - 1] == 9 || answer[hi - 1] == 10
        || answer[hi - 1] == 13)
        invariant
            lo <= hi <= n,
            n == answer@.len(),
            t == answer@.subrange(lo as int, n as int),
            trim_end(t) == trim_end(answer@.subrange(lo as int, hi as int)),
        decreases hi - lo,
    {
        assert(answer@.subrange(lo as int, hi as int).drop_last() =~= answer@.subrange(
            lo as int,
            hi - 1,
        ));
        hi = hi - 1;
    }
    let ghost w = answer@.subrange(lo as int, hi as int);
    assert(trim_end(t) == w);
    let len = hi - lo;
    let yes = if len == 1 {
        let a = lower(answer[lo]);
        a == 121 || a == 115
    } else if len == 2 {
        lower(answer[lo]) == 115 && lower(answer[lo + 1]) == 105
    } else if len == 3 {
        let a = lower(answer[lo]);
        (a == 121 && lower(answer[lo + 1]) == 101 && lower(answer[lo + 2]) == 115) || (a == 115
            && answer[lo + 1] == 0xC3 && answer[lo + 2] == 0xAD)
    } else {
        false
    };
    assert(yes == is_yes_word(w));
    if yes {
        CliStep::Compress
    } else {
        CliStep::Decline
    }
}

} // verus!
