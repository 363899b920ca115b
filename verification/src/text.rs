//! The words the tool says: usage text, banner and failure report.

use vstd::prelude::*;
use vstd::string::StringExecFns;

verus! {

/// The usage text, line by line.
pub open spec fn help_text() -> Seq<char> {
    "Usage: mdtouch [OPTIONS] <file> [file...]\n\n"@
        + "A command line tool to mimic the behaviour of the Unix touch command on Windows.\n"@
        + "If the file does not exist, it will be created. Otherwise, its access and modification\n"@
        + "times will be updated to the current time.\n\n"@
        + "Options:\n"@
        + "  -h, -?      Display this help message and exit.\n"@
}

/// Builds the usage text that a help flag asks for.
pub fn help_message() -> (msg: String)
    ensures
        msg@ == help_text(),
{
    let mut msg = String::new();
    msg.append("Usage: mdtouch [OPTIONS] <file> [file...]\n\n");
    msg.append("A command line tool to mimic the behaviour of the Unix touch command on Windows.\n");
    msg.append("If the file does not exist, it will be created. Otherwise, its access and modification\n");
    msg.append("times will be updated to the current time.\n\n");
    msg.append("Options:\n");
    msg.append("  -h, -?      Display this help message and exit.\n");
    msg
}

/// The build stamp shown when none was supplied at build time.
pub open spec fn default_build_datetime() -> Seq<char> {
    "2025-02-03 10:00:00"@
}

/// The build stamp to show: the one supplied at build time, if any, and a
/// fixed date otherwise.
pub fn build_datetime<'a>(supplied: Option<&'a str>) -> (stamp: &'a str)
    ensures
        stamp@ == match supplied {
            Some(given) => given@,
            None => default_build_datetime(),
        },
{
    match supplied {
        Some(given) => given,
        None => "2025-02-03 10:00:00",
    }
}

/// The banner: the tool's name and build stamp on one line, a one-sentence
/// description on the next.
pub open spec fn banner_text(build: Seq<char>) -> Seq<char> {
    "mdtouch  "@ + build + "\n"@
        + "A tool to update file timestamps or create empty files, mimicking the Unix touch command."@
}

/// Builds the banner shown when the tool is run without arguments.
pub fn banner(build: &str) -> (text: String)
    ensures
        text@ == banner_text(build@),
{
    let mut text = String::from_str("mdtouch  ");
    text.append(build);
    text.append("\n");
    text.append("A tool to update file timestamps or create empty files, mimicking the Unix touch command.");
    text
}

/// The report of a failed touch: a fixed prefix, the path as it was given,
/// and the cause as the operating system worded it.
pub open spec fn error_text(path: Seq<char>, cause: Seq<char>) -> Seq<char> {
    "Error touching "@ + path + ": "@ + cause
}

/// Builds the report of a failed touch of `path`.
pub fn error_message(path: &str, cause: &str) -> (message: String)
    ensures
        message@ == error_text(path@, cause@),
{
    let mut message = String::from_str("Error touching ");
    message.append(path);
    message.append(": ");
    message.append(cause);
    message
}

/// `word` stands in `text` from position `at` on.
pub open spec fn occurs_at(word: Seq<char>, text: Seq<char>, at: int) -> bool {
    &&& 0 <= at
    &&& at + word.len() <= text.len()
    &&& text.subrange(at, at + word.len()) == word
}

/// `text` holds `word` somewhere, as an unbroken run of characters.
pub open spec fn mentions(text: Seq<char>, word: Seq<char>) -> bool {
    exists|at: int| occurs_at(word, text, at)
}

/// What a text mentions, every text that ends with it mentions too.
pub proof fn lemma_mentions_after(before: Seq<char>, text: Seq<char>, word: Seq<char>)
    requires
        mentions(text, word),
    ensures
        mentions(before + text, word),
{
    let at = choose|at: int| occurs_at(word, text, at);
    let shifted = before.len() + at;
    assert((before + text).subrange(shifted, shifted + word.len()) =~= text.subrange(
        at,
        at + word.len(),
    ));
    assert(occurs_at(word, before + text, shifted));
}

/// The usage text names itself as such and documents both help flags.
pub proof fn lemma_help_text_mentions()
    ensures
        mentions(help_text(), "Usage:"@),
        mentions(help_text(), "-h"@),
        mentions(help_text(), "-?"@),
{
    reveal_strlit("Usage: mdtouch [OPTIONS] <file> [file...]\n\n");
    reveal_strlit("  -h, -?      Display this help message and exit.\n");
    reveal_strlit("Usage:");
    reveal_strlit("-h");
    reveal_strlit("-?");
    let first = "Usage: mdtouch [OPTIONS] <file> [file...]\n\n"@;
    let last = "  -h, -?      Display this help message and exit.\n"@;
    let before = help_text().subrange(0, help_text().len() - last.len());
    assert(help_text() =~= before + last);
    assert(help_text().subrange(0, 6) =~= "Usage:"@);
    assert(occurs_at("Usage:"@, help_text(), 0));
    assert(last.subrange(2, 4) =~= "-h"@);
    assert(occurs_at("-h"@, last, 2));
    lemma_mentions_after(before, last, "-h"@);
    assert(last.subrange(6, 8) =~= "-?"@);
    assert(occurs_at("-?"@, last, 6));
    lemma_mentions_after(before, last, "-?"@);
}

/// Whatever the build stamp, the banner names the tool and describes it in
/// one sentence.
pub proof fn lemma_banner_mentions(build: Seq<char>)
    ensures
        mentions(banner_text(build), "mdtouch"@),
        mentions(
            banner_text(build),
            "A tool to update file timestamps or create empty files, mimicking the Unix touch command."@,
        ),
{
    reveal_strlit("mdtouch  ");
    reveal_strlit("mdtouch");
    let text = banner_text(build);
    let sentence =
        "A tool to update file timestamps or create empty files, mimicking the Unix touch command."@;
    assert(text.subrange(0, 7) =~= "mdtouch"@);
    assert(occurs_at("mdtouch"@, text, 0));
    assert(sentence.subrange(0, sentence.len() as int) =~= sentence);
    assert(occurs_at(sentence, sentence, 0));
    lemma_mentions_after("mdtouch  "@ + build + "\n"@, sentence, sentence);
}

/// Whatever the path and the cause, the report of a failed touch opens with
/// the same words and ends with the cause.
pub proof fn lemma_error_text_shape(path: Seq<char>, cause: Seq<char>)
    ensures
        occurs_at("Error touching "@, error_text(path, cause), 0),
        occurs_at(path, error_text(path, cause), "Error touching "@.len() as int),
        occurs_at(cause, error_text(path, cause), error_text(path, cause).len() - cause.len()),
        mentions(error_text(path, cause), "Error touching"@),
{
    reveal_strlit("Error touching ");
    reveal_strlit("Error touching");
    let text = error_text(path, cause);
    let prefix = "Error touching "@;
    assert(text.subrange(0, prefix.len() as int) =~= prefix);
    assert(text.subrange(prefix.len() as int, (prefix.len() + path.len()) as int) =~= path);
    assert(text.subrange(text.len() - cause.len(), text.len() as int) =~= cause);
    assert(text.subrange(0, 14) =~= "Error touching"@);
    assert(occurs_at("Error touching"@, text, 0));
}

} // verus!
