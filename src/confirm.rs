use vstd::prelude::*;
use vstd::string::StrSliceExecFns;

verus! {

/// The reading of one line typed at the confirmation prompt.
#[derive(Clone, Copy, Debug, PartialEq, Eq, Structural)]
pub enum Answer {
    Yes,
    No,
    /// Anything else: the prompt is shown again.
    Unrecognized,
}

/// What `str::trim` returns for a string.
pub uninterp spec fn trimmed_of(s: Seq<char>) -> Seq<char>;

/// What `str::to_lowercase` returns for a string.
pub uninterp spec fn lower_of(s: Seq<char>) -> Seq<char>;

/// The answer that an already trimmed and lowercased line stands for.
pub open spec fn answer_of(s: Seq<char>) -> Answer {
    if s == seq!['y'] {
        Answer::Yes
    } else if s == seq!['n'] {
        Answer::No
    } else {
        Answer::Unrecognized
    }
}

/// Relies on `str::trim`: leading and trailing whitespace removed, a result
/// that depends on the characters alone.
#[verifier::external_body]
fn trim_line(s: &str) -> (r: &str)
    ensures
        r@ == trimmed_of(s@),
{
    s.trim()
}

/// Relies on `str::to_lowercase`: the lowercase equivalent, a result that
/// depends on the characters alone.
#[verifier::external_body]
fn lowercase(s: &str) -> (r: String)
    ensures
        r@ == lower_of(s@),
{
    s.to_lowercase()
}

/// Reads a trimmed, lowercased line: exactly `y` is yes, exactly `n` is no.
pub fn classify_answer(s: &str) -> (r: Answer)
    ensures
        r == answer_of(s@),
{
    if s.unicode_len() != 1 {
        proof {
            assert(s@ != seq!['y']);
            assert(s@ != seq!['n']);
        }
        return Answer::Unrecognized;
    }
    let c = s.get_char(0);
    if c == 'y' {
        assert(s@ =~= seq!['y']);
        Answer::Yes
    } else if c == 'n' {
        assert(s@ =~= seq!['n']);
        Answer::No
    } else {
        proof {
            assert(s@[0] != seq!['y'][0]);
            assert(s@[0] != seq!['n'][0]);
        }
        Answer::Unrecognized
    }
}

/// Reads a line typed at the confirmation prompt: surrounding whitespace is
/// ignored and case does not matter.
pub fn read_confirmation(line: &str) -> (r: Answer)
    ensures
        r == answer_of(lower_of(trimmed_of(line@))),
{
    let t = trim_line(line);
    let l = lowercase(t);
    classify_answer(l.as_str())
}

} // verus!
