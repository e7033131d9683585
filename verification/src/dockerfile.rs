//! Reading the base image out of a Dockerfile.

use crate::text::{
    all_within, char_is_whitespace, copy_span, cut, cuts, is_whitespace, line_spans, lines,
    to_chars,
    word_spans, words, words_from,
};
use vstd::prelude::*;
use vstd::string::StringExecFns;

verus! {

/// Why pulling files out of a container image failed.
#[derive(Debug, Clone, PartialEq, Eq)]
pub enum Error {
    /// The container tool failed; `message` is what it wrote to its standard
    /// error stream.
    Run { message: String },
    /// The Dockerfile names no base image.
    Parse { message: String },
}

/// An `Error`, with its text as characters.
pub enum ErrorView {
    Run { message: Seq<char> },
    Parse { message: Seq<char> },
}

impl View for Error {
    type V = ErrorView;

    open spec fn view(&self) -> ErrorView {
        match self {
            Error::Run { message } => ErrorView::Run { message: message@ },
            Error::Parse { message } => ErrorView::Parse { message: message@ },
        }
    }
}

impl ErrorView {
    /// The line that tells an operator of this error.
    pub open spec fn describe(self) -> Seq<char> {
        match self {
            ErrorView::Run { message } => "Docker run error: "@ + message,
            ErrorView::Parse { message } => "Failed to parse dockerfile: "@ + message,
        }
    }
}

impl Error {
    /// The line that tells an operator of this error.
    pub fn describe(&self) -> (line: String)
        ensures
            line@ == self@.describe(),
    {
        match self {
            Error::Run { message } => {
                let mut line = "Docker run error: ".to_owned();
                line.append(message.as_str());
                line
            },
            Error::Parse { message } => {
                let mut line = "Failed to parse dockerfile: ".to_owned();
                line.append(message.as_str());
                line
            },
        }
    }
}

/// Whether `line` begins with the word `FROM`, in capitals or not: with its
/// four letters, after which the line ends or whitespace follows.
pub open spec fn is_from_line(line: Seq<char>) -> bool {
    &&& line.len() >= 4
    &&& (line[0] == 'F' || line[0] == 'f')
    &&& (line[1] == 'R' || line[1] == 'r')
    &&& (line[2] == 'O' || line[2] == 'o')
    &&& (line[3] == 'M' || line[3] == 'm')
    &&& (line.len() == 4 || is_whitespace(line[4]))
}

/// The last of `lines` that begins with the word `FROM`.
pub open spec fn last_from_line(lines: Seq<Seq<char>>) -> Option<Seq<char>>
    decreases lines.len(),
{
    if lines.len() == 0 {
        None
    } else if is_from_line(lines.last()) {
        Some(lines.last())
    } else {
        last_from_line(lines.drop_last())
    }
}

/// The image that a Dockerfile's last `FROM` line names: the second word of
/// that line, the first being `FROM` itself. `None` where no line begins with
/// the word `FROM`, `Some(None)` where the last such line has no second word.
pub open spec fn base_image(dockerfile: Seq<char>) -> Option<Option<Seq<char>>> {
    match last_from_line(lines(dockerfile)) {
        None => None,
        Some(line) => if words(line).len() >= 2 {
            Some(Some(words(line)[1]))
        } else {
            Some(None)
        },
    }
}

/// Tells whether `line` begins with the word `FROM`, in capitals or not.
pub fn begins_with_from(line: &Vec<char>) -> (b: bool)
    ensures
        b == is_from_line(line@),
{
    line.len() >= 4 && (line[0] == 'F' || line[0] == 'f') && (line[1] == 'R' || line[1] == 'r') && (
    line[2] == 'O' || line[2] == 'o') && (line[3] == 'M' || line[3] == 'm') && (line.len() == 4
        || char_is_whitespace(line[4]))
}

/// Finds the image that the last `FROM` line of a Dockerfile names.
pub fn scan_dockerfile(dockerfile: &str) -> (result: Result<String, Error>)
    ensures
        match base_image(dockerfile@) {
            Some(Some(image)) => result matches Ok(tag) && tag@ == image,
            Some(None) => result matches Err(Error::Parse { message }) && message@
                == "failed to find tag in FROM"@,
            None => result matches Err(Error::Parse { message }) && message@
                == "failed to find FROM statement in dockerfile"@,
        },
{
    let chars = to_chars(dockerfile);
    let all = line_spans(&chars);
    let ghost found_lines = cuts(chars@, all@);
    let mut i: usize = all.len();
    assert(found_lines.take(i as int) == found_lines);
    while i > 0
        invariant
            i <= all.len(),
            chars@ == dockerfile@,
            all_within(all@, chars@.len()),
            found_lines == cuts(chars@, all@),
            found_lines == lines(dockerfile@),
            last_from_line(found_lines.take(i as int)) == last_from_line(found_lines),
        decreases i,
    {
        i = i - 1;
        assert(found_lines.take(i as int + 1).drop_last() == found_lines.take(i as int));
        let span = all[i];
        assert(span.within(chars@.len()));
        let line = copy_span(&chars, span);
        if begins_with_from(&line) {
            let found = word_spans(&line);
            if found.len() >= 2 {
                let word = found[1];
                assert(word.within(line@.len()));
                assert(cuts(line@, found@)[1] == word.of(line@));
                return Ok(cut(cut(dockerfile, span), word).to_owned());
            } else {
                return Err(Error::Parse { message: "failed to find tag in FROM".to_owned() });
            }
        }
    }
    Err(Error::Parse { message: "failed to find FROM statement in dockerfile".to_owned() })
}

/// The first word of a line that begins with the word `FROM` is that word,
/// so that the second word of the line is what follows the directive.
pub proof fn lemma_first_word_is_from(line: Seq<char>)
    requires
        is_from_line(line),
    ensures
        words(line).len() >= 1,
        words(line)[0] == line.take(4),
{
    assert(words_from(line, 0, 0) == words_from(line, 0, 1));
    assert(words_from(line, 0, 1) == words_from(line, 0, 2));
    assert(words_from(line, 0, 2) == words_from(line, 0, 3));
    assert(words_from(line, 0, 3) == words_from(line, 0, 4));
    assert(line.subrange(0, 4) == line.take(4));
}

} // verus!
