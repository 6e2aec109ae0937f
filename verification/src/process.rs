//! What a command that the daemon ran left behind.
use vstd::prelude::*;
use vstd::utf8::*;

use crate::text;

verus! {

/// The outcome of a command that ran to its end.
#[derive(Debug, Clone)]
pub struct CommandOutput {
    pub success: bool,
    pub stdout: Vec<u8>,
    pub stderr: Vec<u8>,
}

/// Why a command could not be run at all.
#[derive(Debug, Clone)]
pub struct LaunchError {
    pub not_found: bool,
    pub message: String,
}

/// The text that `String::from_utf8_lossy` reads in `bytes`.
pub uninterp spec fn lossy_text(bytes: Seq<u8>) -> Seq<char>;

/// Calls `String::from_utf8_lossy`. The text depends on the bytes alone; bytes that are valid
/// UTF-8 give the characters that they encode. Which replacement characters stand for other
/// bytes is left open.
#[verifier::external_body]
pub(crate) fn decode_lossy(bytes: &[u8]) -> (out: String)
    ensures
        out@ == lossy_text(bytes@),
        valid_utf8(bytes@) ==> out@ == decode_utf8(bytes@),
{
    String::from_utf8_lossy(bytes).into_owned()
}

/// The text of bytes that came from outside; what is not UTF-8 is replaced.
pub fn text_of(bytes: &[u8]) -> (out: String)
    ensures
        out@ == lossy_text(bytes@),
        valid_utf8(bytes@) ==> out@ == decode_utf8(bytes@),
{
    decode_lossy(bytes)
}

impl CommandOutput {
    /// What the command printed.
    pub open spec fn printed(self) -> Seq<char> {
        lossy_text(self.stdout@)
    }

    /// What the command complained about, without white space at either end.
    pub open spec fn complaint(self) -> Seq<char> {
        text::trim(lossy_text(self.stderr@))
    }

    /// What the command printed.
    pub fn stdout_text(&self) -> (out: String)
        ensures
            out@ == self.printed(),
    {
        decode_lossy(self.stdout.as_slice())
    }

    /// What the command complained about.
    pub fn stderr_message(&self) -> (out: String)
        ensures
            out@ == self.complaint(),
    {
        text::trimmed(decode_lossy(self.stderr.as_slice()).as_str())
    }
}

/// What a command printed is the text of its output and has nothing to do with its complaints; its
/// complaint is the text of its error output without the white space around it, and has nothing to
/// do with what it printed.
pub proof fn commands_tell_two_things(
    done: CommandOutput,
    other: CommandOutput,
    before: Seq<char>,
    middle: Seq<char>,
    after: Seq<char>,
)
    requires
        text::is_blank(before),
        text::is_blank(after),
        middle.len() > 0,
        !text::is_space(middle[0]),
        !text::is_space(middle.last()),
    ensures
        done.printed() == lossy_text(done.stdout@),
        done.stdout@ == other.stdout@ ==> done.printed() == other.printed(),
        done.stderr@ == other.stderr@ ==> done.complaint() == other.complaint(),
        lossy_text(done.stderr@) == before + middle + after ==> done.complaint() == middle,
        lossy_text(done.stderr@) == before ==> done.complaint().len() == 0,
{
    text::trimming_leaves_the_middle(before, middle, after);
    text::trimming_leaves_the_middle(before, middle, Seq::empty());
    assert(before + Seq::<char>::empty() =~= before);
}

} // verus!
