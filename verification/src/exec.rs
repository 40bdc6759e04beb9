use vstd::prelude::*;

verus! {

/// What a finished process left behind: its exit status and its two output streams.
#[derive(Clone, Debug)]
pub struct CommandOutput {
    pub status: i32,
    pub stdout: String,
    pub stderr: String,
}

/// The text that `String::from_utf8_lossy` makes of the given bytes.
pub uninterp spec fn utf8_lossy(bytes: Seq<u8>) -> Seq<char>;

/// Calls `String::from_utf8_lossy` and takes the text as an owned `String`.
///
/// Trusted: the result is the named decoding of the bytes; where the bytes
/// are valid UTF-8 it is their decoding, as std documents (only invalid
/// sequences are replaced, by U+FFFD, which is left unstated here).
#[verifier::external_body]
fn decode_lossy(bytes: &[u8]) -> (r: String)
    ensures
        r@ == utf8_lossy(bytes@),
        vstd::utf8::valid_utf8(bytes@) ==> r@ == vstd::utf8::decode_utf8(bytes@),
{
    String::from_utf8_lossy(bytes).into_owned()
}

/// The status a process is reported with: its exit code, or -1 where it has
/// none (it was ended by a signal).
pub open spec fn reported_status(code: Option<i32>) -> i32 {
    match code {
        Some(c) => c,
        None => -1i32,
    }
}

/// A process that has an exit code is reported with exactly that code, and
/// -1 stands only for a process without one.
pub proof fn lemma_status_is_the_exit_code(c: i32)
    ensures
        reported_status(Some(c)) == c,
        reported_status(None) == -1,
{
}

impl CommandOutput {
    /// The output of a finished process from its exit code and raw streams;
    /// the streams are decoded as UTF-8, invalid sequences replaced.
    pub fn from_process_output(code: Option<i32>, stdout: &[u8], stderr: &[u8]) -> (r:
        CommandOutput)
        ensures
            r.status == reported_status(code),
            code matches Some(c) ==> r.status == c,
            code is None ==> r.status == -1,
            r.stdout@ == utf8_lossy(stdout@),
            r.stderr@ == utf8_lossy(stderr@),
            vstd::utf8::valid_utf8(stdout@) ==> r.stdout@ == vstd::utf8::decode_utf8(stdout@),
            vstd::utf8::valid_utf8(stderr@) ==> r.stderr@ == vstd::utf8::decode_utf8(stderr@),
    {
        let status = match code {
            Some(c) => c,
            None => -1,
        };
        let stdout = decode_lossy(stdout);
        let stderr = decode_lossy(stderr);
        CommandOutput { status, stdout, stderr }
    }
}

/// The platform's runner of processes.
#[derive(Default)]
pub struct ExecImpl;

impl ExecImpl {
    pub fn new() -> ExecImpl {
        ExecImpl
    }
}

} // verus!
