use vstd::prelude::*;
use vstd::string::{StrSliceExecFns, StringExecFns};

verus! {

/// What `base64::encode` makes of the UTF-8 bytes of a text.
pub uninterp spec fn base64_of(s: Seq<char>) -> Seq<char>;

/// Relies on `base64::encode`: the standard-alphabet encoding of the text's
/// bytes, which depends on the text alone.
#[verifier::external_body]
fn base64_text(s: &str) -> (r: String)
    ensures
        r@ == base64_of(s@),
{
    base64::encode(s)
}

/// The message that a command carries: its text without a trailing spoiler
/// mark `||`, where there is one.
pub open spec fn command_message(text: Seq<char>) -> Seq<char> {
    if text.len() >= 2 && text[text.len() - 2] == '|' && text[text.len() - 1] == '|' {
        text.subrange(0, text.len() - 2)
    } else {
        text
    }
}

/// Removes a trailing spoiler mark `||` from a command's text.
pub fn strip_spoiler(text: &str) -> (r: &str)
    ensures
        r@ == command_message(text@),
{
    let n = text.unicode_len();
    if n >= 2 && text.get_char(n - 2) == '|' && text.get_char(n - 1) == '|' {
        text.substring_char(0, n - 2)
    } else {
        assert(text@.subrange(0, n as int) =~= text@);
        text.substring_char(0, n)
    }
}

/// The names of the audio file of a message and of its compressed copy: the
/// base64 form of the message with a `.wav` and an `.mp3` extension.
pub fn file_names(msg: &str) -> (r: (String, String))
    ensures
        r.0@ == base64_of(msg@) + seq!['.', 'w', 'a', 'v'],
        r.1@ == base64_of(msg@) + seq!['.', 'm', 'p', '3'],
{
    let stem = base64_text(msg);
    let mut wav = stem.clone();
    let mut mp3 = stem;
    proof {
        reveal_strlit(".wav");
        reveal_strlit(".mp3");
    }
    wav.append(".wav");
    mp3.append(".mp3");
    assert(wav@ =~= base64_of(msg@) + seq!['.', 'w', 'a', 'v']);
    assert(mp3@ =~= base64_of(msg@) + seq!['.', 'm', 'p', '3']);
    (wav, mp3)
}

} // verus!
