//! Shell-style word splitting for user-supplied configure options.
//!
//! A quoted string with embedded spaces (for example a combined flags
//! value) parses as a single token; single quotes take characters
//! literally, double quotes allow backslash escapes of `$`, backquote,
//! `"`, backslash and line continuations, a backslash escapes the next
//! character, and an unquoted `#` starts a comment.  An unclosed quote is
//! a malformed option string and is rejected.

use vstd::prelude::*;

use crate::text::push_char;

verus! {

/// Tokenizer state between two characters of the input.
#[derive(Clone, Copy, PartialEq, Eq, Structural)]
pub enum SplitState {
    /// Between words.
    Delimiter,
    /// After a backslash, before a word has started.
    Backslash,
    /// Inside an unquoted word.
    Unquoted,
    /// After a backslash inside an unquoted word.
    UnquotedBackslash,
    /// Inside a single-quoted part.
    SingleQuoted,
    /// Inside a double-quoted part.
    DoubleQuoted,
    /// After a backslash inside a double-quoted part.
    DoubleQuotedBackslash,
    /// Inside a comment.
    Comment,
}

/// The words produced from the remaining input `s`, starting in `state`
/// with `word` collected so far and `words` already complete; `None` when
/// the input ends inside a quoted part.
pub open spec fn split_from(
    s: Seq<char>,
    state: SplitState,
    word: Seq<char>,
    words: Seq<Seq<char>>,
) -> Option<Seq<Seq<char>>>
    decreases s.len(),
{
    if s.len() == 0 {
        match state {
            SplitState::Delimiter => Some(words),
            SplitState::Comment => Some(words),
            SplitState::Backslash => Some(words.push(word.push('\\'))),
            SplitState::UnquotedBackslash => Some(words.push(word.push('\\'))),
            SplitState::Unquoted => Some(words.push(word)),
            SplitState::SingleQuoted => None,
            SplitState::DoubleQuoted => None,
            SplitState::DoubleQuotedBackslash => None,
        }
    } else {
        let c = s[0];
        let rest = s.drop_first();
        match state {
            SplitState::Delimiter => {
                if c == '\'' {
                    split_from(rest, SplitState::SingleQuoted, word, words)
                } else if c == '"' {
                    split_from(rest, SplitState::DoubleQuoted, word, words)
                } else if c == '\\' {
                    split_from(rest, SplitState::Backslash, word, words)
                } else if c == '\t' || c == ' ' || c == '\n' {
                    split_from(rest, SplitState::Delimiter, word, words)
                } else if c == '#' {
                    split_from(rest, SplitState::Comment, word, words)
                } else {
                    split_from(rest, SplitState::Unquoted, word.push(c), words)
                }
            },
            SplitState::Backslash => {
                if c == '\n' {
                    split_from(rest, SplitState::Delimiter, word, words)
                } else {
                    split_from(rest, SplitState::Unquoted, word.push(c), words)
                }
            },
            SplitState::Unquoted => {
                if c == '\'' {
                    split_from(rest, SplitState::SingleQuoted, word, words)
                } else if c == '"' {
                    split_from(rest, SplitState::DoubleQuoted, word, words)
                } else if c == '\\' {
                    split_from(rest, SplitState::UnquotedBackslash, word, words)
                } else if c == '\t' || c == ' ' || c == '\n' {
                    split_from(rest, SplitState::Delimiter, Seq::empty(), words.push(word))
                } else {
                    split_from(rest, SplitState::Unquoted, word.push(c), words)
                }
            },
            SplitState::UnquotedBackslash => {
                if c == '\n' {
                    split_from(rest, SplitState::Unquoted, word, words)
                } else {
                    split_from(rest, SplitState::Unquoted, word.push(c), words)
                }
            },
            SplitState::SingleQuoted => {
                if c == '\'' {
                    split_from(rest, SplitState::Unquoted, word, words)
                } else {
                    split_from(rest, SplitState::SingleQuoted, word.push(c), words)
                }
            },
            SplitState::DoubleQuoted => {
                if c == '"' {
                    split_from(rest, SplitState::Unquoted, word, words)
                } else if c == '\\' {
                    split_from(rest, SplitState::DoubleQuotedBackslash, word, words)
                } else {
                    split_from(rest, SplitState::DoubleQuoted, word.push(c), words)
                }
            },
            SplitState::DoubleQuotedBackslash => {
                if c == '\n' {
                    split_from(rest, SplitState::DoubleQuoted, word, words)
                } else if c == '$' || c == '`' || c == '"' || c == '\\' {
                    split_from(rest, SplitState::DoubleQuoted, word.push(c), words)
                } else {
                    split_from(rest, SplitState::DoubleQuoted, word.push('\\').push(c), words)
                }
            },
            SplitState::Comment => {
                if c == '\n' {
                    split_from(rest, SplitState::Delimiter, word, words)
                } else {
                    split_from(rest, SplitState::Comment, word, words)
                }
            },
        }
    }
}

/// The words of a whole option string, or `None` when a quote is unclosed.
pub open spec fn spec_split(s: Seq<char>) -> Option<Seq<Seq<char>>> {
    split_from(s, SplitState::Delimiter, Seq::empty(), Seq::empty())
}

/// A malformed option string: the input ended inside a quoted part.
#[derive(Debug)]
pub enum SplitError {
    UnclosedQuote,
}

/// Splits an option string into words the way a Unix shell would, with
/// expansions limited to quote removal.
pub fn split(s: &str) -> (r: Result<Vec<String>, SplitError>)
    ensures
        match r {
            Ok(words) => spec_split(s@) == Some(words.deep_view()),
            Err(_) => spec_split(s@) is None,
        },
{
    let len = s.unicode_len();
    let mut i: usize = 0;
    let mut state = SplitState::Delimiter;
    let mut word = String::new();
    let mut words: Vec<String> = Vec::new();
    proof {
        assert(s@.subrange(0, len as int) =~= s@);
        assert(words.deep_view() =~= Seq::<Seq<char>>::empty());
        assert(word@ =~= Seq::<char>::empty());
    }
    while i < len
        invariant
            i <= len,
            len == s@.len(),
            split_from(s@.subrange(i as int, len as int), state, word@, words.deep_view())
                == spec_split(s@),
        decreases len - i,
    {
        let ghost pre_words = words.deep_view();
        let c = s.get_char(i);
        proof {
            assert(s@.subrange(i as int, len as int)[0] == c);
            assert(s@.subrange(i as int, len as int).drop_first() =~= s@.subrange(
                i + 1,
                len as int,
            ));
        }
        match state {
            SplitState::Delimiter => {
                if c == '\'' {
                    state = SplitState::SingleQuoted;
                } else if c == '"' {
                    state = SplitState::DoubleQuoted;
                } else if c == '\\' {
                    state = SplitState::Backslash;
                } else if c == '\t' || c == ' ' || c == '\n' {
                } else if c == '#' {
                    state = SplitState::Comment;
                } else {
                    push_char(&mut word, c);
                    state = SplitState::Unquoted;
                }
            },
            SplitState::Backslash => {
                if c == '\n' {
                    state = SplitState::Delimiter;
                } else {
                    push_char(&mut word, c);
                    state = SplitState::Unquoted;
                }
            },
            SplitState::Unquoted => {
                if c == '\'' {
                    state = SplitState::SingleQuoted;
                } else if c == '"' {
                    state = SplitState::DoubleQuoted;
                } else if c == '\\' {
                    state = SplitState::UnquotedBackslash;
                } else if c == '\t' || c == ' ' || c == '\n' {
                    words.push(word);
                    word = String::new();
                    state = SplitState::Delimiter;
                    proof {
                        assert(words.deep_view() =~= pre_words.push(words@.last()@));
                    }
                } else {
                    push_char(&mut word, c);
                }
            },
            SplitState::UnquotedBackslash => {
                if c == '\n' {
                    state = SplitState::Unquoted;
                } else {
                    push_char(&mut word, c);
                    state = SplitState::Unquoted;
                }
            },
            SplitState::SingleQuoted => {
                if c == '\'' {
                    state = SplitState::Unquoted;
                } else {
                    push_char(&mut word, c);
                }
            },
            SplitState::DoubleQuoted => {
                if c == '"' {
                    state = SplitState::Unquoted;
                } else if c == '\\' {
                    state = SplitState::DoubleQuotedBackslash;
                } else {
                    push_char(&mut word, c);
                }
            },
            SplitState::DoubleQuotedBackslash => {
                if c == '\n' {
                    state = SplitState::DoubleQuoted;
                } else if c == '$' || c == '`' || c == '"' || c == '\\' {
                    push_char(&mut word, c);
                    state = SplitState::DoubleQuoted;
                } else {
                    push_char(&mut word, '\\');
                    push_char(&mut word, c);
                    state = SplitState::DoubleQuoted;
                }
            },
            SplitState::Comment => {
                if c == '\n' {
                    state = SplitState::Delimiter;
                }
            },
        }
        i = i + 1;
    }
    proof {
        assert(s@.subrange(len as int, len as int) =~= Seq::<char>::empty());
    }
    let ghost pre_words = words.deep_view();
    match state {
        SplitState::Delimiter => Ok(words),
        SplitState::Comment => Ok(words),
        SplitState::Backslash => {
            push_char(&mut word, '\\');
            words.push(word);
            proof {
                assert(words.deep_view() =~= pre_words.push(words@.last()@));
            }
            Ok(words)
        },
        SplitState::UnquotedBackslash => {
            push_char(&mut word, '\\');
            words.push(word);
            proof {
                assert(words.deep_view() =~= pre_words.push(words@.last()@));
            }
            Ok(words)
        },
        SplitState::Unquoted => {
            words.push(word);
            proof {
                assert(words.deep_view() =~= pre_words.push(words@.last()@));
            }
            Ok(words)
        },
        SplitState::SingleQuoted => Err(SplitError::UnclosedQuote),
        SplitState::DoubleQuoted => Err(SplitError::UnclosedQuote),
        SplitState::DoubleQuotedBackslash => Err(SplitError::UnclosedQuote),
    }
}

} // verus!
