//! Markers around escape sequences, for shells that would otherwise count
//! the invisible characters of a prompt as visible ones.

use vstd::prelude::*;

verus! {

/// The shell that a prompt is rendered for.
#[derive(Clone, Copy, Debug, PartialEq, Eq)]
pub enum Shell {
    Bash,
    Fish,
    Ion,
    PowerShell,
    Zsh,
    Elvish,
    Tcsh,
    Nu,
    Xonsh,
    Unknown,
}

impl Default for Shell {
    /// The shell of which nothing is known.
    fn default() -> (shell: Shell)
        ensures
            shell == Shell::Unknown,
    {
        Shell::Unknown
    }
}

/// The character that starts a colour escape sequence.
pub const ESCAPE_BEGIN: char = '\u{1b}';

/// The character that ends a colour escape sequence.
pub const ESCAPE_END: char = 'm';

/// Whether the shell needs markers around escape sequences.
pub open spec fn needs_markers(shell: Shell) -> bool {
    shell is Bash || shell is Zsh || shell is Tcsh
}

/// What the shell wants in front of an escape sequence.
pub open spec fn begin_marker(shell: Shell) -> Seq<char> {
    match shell {
        Shell::Bash => seq!['\\', '['],
        Shell::Zsh => seq!['%', '{'],
        Shell::Tcsh => seq!['%', '{'],
        _ => Seq::empty(),
    }
}

/// What the shell wants behind an escape sequence.
pub open spec fn end_marker(shell: Shell) -> Seq<char> {
    match shell {
        Shell::Bash => seq!['\\', ']'],
        Shell::Zsh => seq!['%', '}'],
        Shell::Tcsh => seq!['%', '}'],
        _ => Seq::empty(),
    }
}

/// `text` with the shell's markers around each escape sequence, read from a
/// point that lies inside a sequence if `escaped` and outside otherwise.
///
/// A sequence starts at `begin` met outside a sequence and ends at the next
/// `end`; sequences do not nest. Every character of `text` is kept.
pub open spec fn wrapped_from(
    text: Seq<char>,
    shell: Shell,
    begin: char,
    end: char,
    escaped: bool,
) -> Seq<char>
    decreases text.len(),
{
    if text.len() == 0 {
        Seq::empty()
    } else if text[0] == begin && !escaped {
        begin_marker(shell) + seq![begin] + wrapped_from(text.skip(1), shell, begin, end, true)
    } else if text[0] == end && escaped {
        seq![end] + end_marker(shell) + wrapped_from(text.skip(1), shell, begin, end, false)
    } else {
        seq![text[0]] + wrapped_from(text.skip(1), shell, begin, end, escaped)
    }
}

/// `text` with the shell's markers around each sequence from `begin` to
/// `end`.
pub open spec fn wrapped(text: Seq<char>, shell: Shell, begin: char, end: char) -> Seq<char> {
    wrapped_from(text, shell, begin, end, false)
}

/// `text` with the shell's markers around each colour escape sequence.
pub open spec fn color_wrapped(text: Seq<char>, shell: Shell) -> Seq<char> {
    wrapped(text, shell, ESCAPE_BEGIN, ESCAPE_END)
}

/// Whether `text` begins with `prefix`.
pub open spec fn starts_with(text: Seq<char>, prefix: Seq<char>) -> bool {
    prefix.len() <= text.len() && text.take(prefix.len() as int) == prefix
}

/// `text` without the shell's markers around colour escape sequences, read
/// from a point that lies inside a sequence if `escaped`.
///
/// Outside a sequence, a begin marker counts as one only directly in front
/// of the escape character; inside, an end marker only directly behind the
/// character that ends the sequence.
pub open spec fn stripped_from(text: Seq<char>, shell: Shell, escaped: bool) -> Seq<char>
    decreases text.len(),
{
    let opening = begin_marker(shell) + seq![ESCAPE_BEGIN];
    let closing = seq![ESCAPE_END] + end_marker(shell);
    if text.len() == 0 {
        Seq::empty()
    } else if !escaped && starts_with(text, opening) {
        seq![ESCAPE_BEGIN] + stripped_from(text.skip(opening.len() as int), shell, true)
    } else if escaped && starts_with(text, closing) {
        seq![ESCAPE_END] + stripped_from(text.skip(closing.len() as int), shell, false)
    } else {
        seq![text[0]] + stripped_from(text.skip(1), shell, escaped)
    }
}

/// `text` without the shell's markers around colour escape sequences.
pub open spec fn stripped(text: Seq<char>, shell: Shell) -> Seq<char> {
    stripped_from(text, shell, false)
}

/// For a shell that needs no markers, wrapping changes nothing.
pub proof fn lemma_wrapped_without_markers(
    text: Seq<char>,
    shell: Shell,
    begin: char,
    end: char,
    escaped: bool,
)
    requires
        !needs_markers(shell),
    ensures
        wrapped_from(text, shell, begin, end, escaped) == text,
    decreases text.len(),
{
    if text.len() > 0 {
        let next = if text[0] == begin && !escaped {
            true
        } else if text[0] == end && escaped {
            false
        } else {
            escaped
        };
        lemma_wrapped_without_markers(text.skip(1), shell, begin, end, next);
    }
}

/// Taking the markers out of wrapped text gives the text back, from either
/// side of a sequence's border.
pub proof fn lemma_stripped_wrapped_from(text: Seq<char>, shell: Shell, escaped: bool)
    ensures
        stripped_from(wrapped_from(text, shell, ESCAPE_BEGIN, ESCAPE_END, escaped), shell, escaped)
            == text,
    decreases text.len(),
{
    let w = wrapped_from(text, shell, ESCAPE_BEGIN, ESCAPE_END, escaped);
    let opening = begin_marker(shell) + seq![ESCAPE_BEGIN];
    let closing = seq![ESCAPE_END] + end_marker(shell);
    if text.len() > 0 {
        let rest = text.skip(1);
        if text[0] == ESCAPE_BEGIN && !escaped {
            // An opening was written, and is taken out again.
            lemma_stripped_wrapped_from(rest, shell, true);
            assert(w.take(opening.len() as int) == opening);
            assert(w.skip(opening.len() as int) == wrapped_from(rest, shell, ESCAPE_BEGIN, ESCAPE_END, true));
        } else if text[0] == ESCAPE_END && escaped {
            // A closing was written, and is taken out again.
            lemma_stripped_wrapped_from(rest, shell, false);
            assert(w.take(closing.len() as int) == closing);
            assert(w.skip(closing.len() as int) == wrapped_from(rest, shell, ESCAPE_BEGIN, ESCAPE_END, false));
        } else {
            // The character was written as it is, and must be read as it
            // is: the wrapped text starts with neither an opening nor a
            // closing here.
            lemma_stripped_wrapped_from(rest, shell, escaped);
            assert(w.skip(1) == wrapped_from(rest, shell, ESCAPE_BEGIN, ESCAPE_END, escaped));
            if !escaped && starts_with(w, opening) {
                assert(w[0] == opening[0]);
                if needs_markers(shell) {
                    // The text itself would spell out a marker, followed by
                    // an escape character. But outside a sequence wrapped
                    // text never goes on with a bare escape character: a
                    // marker of its own stands in front of each.
                    assert(w[1] == opening[1]);
                    assert(w[2] == opening[2]);
                    assert(wrapped_from(rest.skip(1), shell, ESCAPE_BEGIN, ESCAPE_END, false)[0]
                        != ESCAPE_BEGIN);
                }
                assert(false);
            }
            if escaped && starts_with(w, closing) {
                assert(w[0] == closing[0]);
                assert(false);
            }
        }
    }
}

/// Stripping the shell's markers from wrapped text always gives the text as
/// it was before it was wrapped.
pub proof fn lemma_stripped_wrapped(text: Seq<char>, shell: Shell)
    ensures
        stripped(color_wrapped(text, shell), shell) == text,
{
    lemma_stripped_wrapped_from(text, shell, false);
}

/// The shell's begin marker as a string.
fn begin_marker_str(shell: Shell) -> (marker: &'static str)
    ensures
        marker@ == begin_marker(shell),
{
    proof {
        reveal_strlit("\\[");
        reveal_strlit("%{");
        reveal_strlit("");
    }
    match shell {
        Shell::Bash => "\\[",
        Shell::Zsh => "%{",
        Shell::Tcsh => "%{",
        _ => "",
    }
}

/// The shell's end marker as a string.
fn end_marker_str(shell: Shell) -> (marker: &'static str)
    ensures
        marker@ == end_marker(shell),
{
    proof {
        reveal_strlit("\\]");
        reveal_strlit("%}");
        reveal_strlit("");
    }
    match shell {
        Shell::Bash => "\\]",
        Shell::Zsh => "%}",
        Shell::Tcsh => "%}",
        _ => "",
    }
}

/// Puts the shell's markers around each sequence that runs from
/// `escape_begin` to the next `escape_end`, and keeps every character of
/// `ansi`. For a shell that needs no markers the text comes back as it was.
pub fn wrap_seq_for_shell(ansi: String, shell: Shell, escape_begin: char, escape_end: char) -> (out:
    String)
    ensures
        out@ == wrapped(ansi@, shell, escape_begin, escape_end),
        !needs_markers(shell) ==> out@ == ansi@,
{
    let text = ansi.as_str();
    let begin = begin_marker_str(shell);
    let end = end_marker_str(shell);
    let mut out = String::new();
    let mut escaped = false;
    proof {
        assert(text@.skip(0) == text@);
    }
    for c in it: text.chars()
        invariant
            it.seq() == text@,
            begin@ == begin_marker(shell),
            end@ == end_marker(shell),
            wrapped(text@, shell, escape_begin, escape_end) == out@ + wrapped_from(
                text@.skip(it.index()),
                shell,
                escape_begin,
                escape_end,
                escaped,
            ),
    {
        proof {
            assert(text@.skip(it.index()).skip(1) == text@.skip(it.index() + 1));
        }
        if c == escape_begin && !escaped {
            escaped = true;
            out.append(begin);
            out.push(c);
        } else if c == escape_end && escaped {
            escaped = false;
            out.push(c);
            out.append(end);
        } else {
            out.push(c);
        }
    }
    proof {
        if !needs_markers(shell) {
            lemma_wrapped_without_markers(ansi@, shell, escape_begin, escape_end, false);
        }
    }
    out
}

/// Puts the shell's markers around each colour escape sequence of `ansi`.
/// The visible text is untouched, and for a shell that needs no markers
/// nothing changes at all.
pub fn wrap_colorseq_for_shell(ansi: String, shell: Shell) -> (out: String)
    ensures
        out@ == color_wrapped(ansi@, shell),
        !needs_markers(shell) ==> out@ == ansi@,
        stripped(out@, shell) == ansi@,
{
    proof {
        lemma_stripped_wrapped(ansi@, shell);
    }
    wrap_seq_for_shell(ansi, shell, ESCAPE_BEGIN, ESCAPE_END)
}

} // verus!
