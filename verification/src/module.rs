//! A module: the segments that one integration shows, with its name and
//! description, and the queries that render them.

use vstd::prelude::*;
use crate::compose::{ansi_line, lemma_without_width, rendered_lines, unfilled};
use crate::segment::{Segment, SegmentView, segment_views};
use crate::shell::{Shell, color_wrapped, needs_markers, wrap_colorseq_for_shell};
use crate::style::{StyledString, StyledText, TextStyle, paint_all, painted, painted_all, styled_texts};

verus! {

/// `toml::Value`, as a type whose values are only handed on.
#[verifier::external_type_specification]
#[verifier::external_body]
pub struct ExTomlValue(toml::Value);

/// The names of all modules, in alphabetical order.
pub const ALL_MODULES: [&'static str; 64] = [
    "aws",
    "battery",
    "character",
    "cmake",
    "cmd_duration",
    "cobol",
    "conda",
    "crystal",
    "dart",
    "deno",
    "directory",
    "docker_context",
    "dotnet",
    "elixir",
    "elm",
    "env_var",
    "erlang",
    "fill",
    "gcloud",
    "git_branch",
    "git_commit",
    "git_metrics",
    "git_state",
    "git_status",
    "golang",
    "helm",
    "hg_branch",
    "hostname",
    "java",
    "jobs",
    "julia",
    "kotlin",
    "kubernetes",
    "line_break",
    "lua",
    "memory_usage",
    "nim",
    "nix_shell",
    "nodejs",
    "ocaml",
    "openstack",
    "package",
    "perl",
    "php",
    "pulumi",
    "purescript",
    "python",
    "red",
    "rlang",
    "ruby",
    "rust",
    "scala",
    "shell",
    "shlvl",
    "singularity",
    "status",
    "swift",
    "terraform",
    "time",
    "username",
    "vagrant",
    "vcsh",
    "vlang",
    "zig",
];

/// A module is a collection of segments showing data for a single
/// integration, such as the current branch of a repository.
pub struct Module<'a> {
    /// The module's configuration, if there is any. It is carried along and
    /// never looked into.
    pub config: Option<&'a toml::Value>,
    /// The module's name, to be used in configuration and logging.
    pub name: String,
    /// The module's description.
    pub description: String,
    /// The segments that compose this module.
    pub segments: Vec<Segment>,
    /// The time it took to compute this module, in nanoseconds.
    pub duration_nanos: u128,
}

/// Whether nothing of the segments would show: each is a styled segment
/// without text.
pub open spec fn all_blank(segments: Seq<SegmentView>) -> bool {
    forall|i: int| 0 <= i < segments.len() ==> (#[trigger] segments[i]).is_blank()
}

/// The texts that the segments carry, in order.
pub open spec fn raw_texts(segments: Seq<SegmentView>) -> Seq<Seq<char>> {
    segments.map_values(|s: SegmentView| s.raw_text())
}

/// A finished string as a shell that needs markers is given it: the
/// characters the terminal is sent for it, with the shell's markers around
/// the escape sequences, and no style left to apply.
pub open spec fn marked_string(string: StyledText, shell: Shell) -> StyledText {
    StyledText {
        style: TextStyle::plain(),
        text: color_wrapped(painted(string.style, string.text), shell),
    }
}

/// The finished strings as the shell is given them: marked for a shell
/// that needs markers, and unchanged for any other.
pub open spec fn strings_for_shell(strings: Seq<StyledText>, shell: Shell) -> Seq<StyledText> {
    if needs_markers(shell) {
        strings.map_values(|s: StyledText| marked_string(s, shell))
    } else {
        strings
    }
}

/// Segments that are all styled and all hold text, one of them at least,
/// are not all blank: a module made of them is not empty.
pub proof fn lemma_text_is_content(segments: Seq<SegmentView>)
    requires
        segments.len() > 0,
        forall|i: int|
            0 <= i < segments.len() ==> (#[trigger] segments[i] matches SegmentView::Styled(text, _)
                && text.len() > 0),
    ensures
        !all_blank(segments),
{
    assert(!segments[0].is_blank());
}

/// Segments among which there is no line terminator and no fill, and whose
/// styled segments all have empty text, are all blank: a module made of
/// them is empty.
pub proof fn lemma_no_text_is_blank(segments: Seq<SegmentView>)
    requires
        forall|i: int|
            0 <= i < segments.len() ==> !(#[trigger] segments[i] is LineTerminator) && !(segments[i] is Fill),
        forall|i: int|
            0 <= i < segments.len() ==> (#[trigger] segments[i] matches SegmentView::Styled(text, _)
                ==> text.len() == 0),
    ensures
        all_blank(segments),
{
}

/// For a shell that needs no markers, the strings come through unchanged.
pub proof fn lemma_other_shells_change_nothing(strings: Seq<StyledText>, shell: Shell)
    requires
        !needs_markers(shell),
    ensures
        strings_for_shell(strings, shell) == strings,
{
}

/// Marks every string for the shell.
fn ansi_strings_modified(ansi_strings: Vec<StyledString>, shell: Shell) -> (marked: Vec<StyledString>)
    ensures
        styled_texts(marked@) == styled_texts(ansi_strings@).map_values(
            |s: StyledText| marked_string(s, shell),
        ),
{
    let mut marked: Vec<StyledString> = Vec::new();
    let mut i: usize = 0;
    while i < ansi_strings.len()
        invariant
            i <= ansi_strings.len(),
            marked.len() == i,
            forall|j: int|
                0 <= j < i ==> (#[trigger] marked[j])@ == marked_string(ansi_strings[j]@, shell),
        decreases ansi_strings.len() - i,
    {
        let wrapped = wrap_colorseq_for_shell(ansi_strings[i].to_string(), shell);
        marked.push(StyledString { style: TextStyle::new(), text: wrapped });
        i += 1;
    }
    marked
}

impl<'a> Module<'a> {
    /// The views of the module's segments, in order.
    pub open spec fn segment_views(&self) -> Seq<SegmentView> {
        segment_views(self.segments@)
    }

    /// Creates a module with no segments.
    pub fn new(name: &str, desc: &str, config: Option<&'a toml::Value>) -> (module: Module<'a>)
        ensures
            module.name@ == name@,
            module.description@ == desc@,
            module.config == config,
            module.segments@.len() == 0,
            module.duration_nanos == 0,
    {
        Module {
            config,
            name: String::from_str(name),
            description: String::from_str(desc),
            segments: Vec::new(),
            duration_nanos: 0,
        }
    }

    /// Sets the segments of the module, in place of those it had.
    pub fn set_segments(&mut self, segments: Vec<Segment>)
        ensures
            final(self).segments == segments,
            final(self).name == old(self).name,
            final(self).description == old(self).description,
            final(self).config == old(self).config,
            final(self).duration_nanos == old(self).duration_nanos,
    {
        self.segments = segments;
    }

    /// The module's name.
    pub fn get_name(&self) -> (name: &String)
        ensures
            name == self.name,
    {
        &self.name
    }

    /// The module's description.
    pub fn get_description(&self) -> (description: &String)
        ensures
            description == self.description,
    {
        &self.description
    }

    /// Whether the module shows nothing: every segment is a styled segment
    /// without text. Text is not trimmed, so a space counts as content, and
    /// so does a line break.
    pub fn is_empty(&self) -> (empty: bool)
        ensures
            empty == all_blank(self.segment_views()),
    {
        let mut i: usize = 0;
        while i < self.segments.len()
            invariant
                i <= self.segments.len(),
                forall|j: int| 0 <= j < i ==> (#[trigger] self.segment_views()[j]).is_blank(),
            decreases self.segments.len() - i,
        {
            if !self.segments[i].is_blank() {
                assert(!self.segment_views()[i as int].is_blank());
                return false;
            }
            i += 1;
        }
        true
    }

    /// The text that each segment carries, in order.
    pub fn get_segments(&self) -> (values: Vec<&str>)
        ensures
            values@.map_values(|v: &str| v@) == raw_texts(self.segment_views()),
    {
        let mut values: Vec<&str> = Vec::new();
        let mut i: usize = 0;
        while i < self.segments.len()
            invariant
                i <= self.segments.len(),
                values.len() == i,
                forall|j: int| 0 <= j < i ==> (#[trigger] values[j])@ == self.segment_views()[j].raw_text(),
            decreases self.segments.len() - i,
        {
            values.push(self.segments[i].raw_text());
            i += 1;
        }
        values
    }

    /// The finished strings of the module for no shell in particular and
    /// without a target width: one string for each segment, in order, text
    /// and line terminators as they are, and every fill empty.
    pub fn ansi_strings(&self) -> (strings: Vec<StyledString>)
        ensures
            styled_texts(strings@) == rendered_lines(self.segment_views(), 0, None),
            styled_texts(strings@) == unfilled(self.segment_views()),
    {
        proof {
            lemma_without_width(self.segment_views(), 0);
            assert(self.segment_views().skip(0) == self.segment_views());
        }
        self.ansi_strings_for_shell(Shell::Unknown, None)
    }

    /// The finished strings of the module, line after line, with fills
    /// resolved against `width` and, for a shell that needs them, markers
    /// around the escape sequences.
    pub fn ansi_strings_for_shell(&self, shell: Shell, width: Option<usize>) -> (strings: Vec<
        StyledString,
    >)
        ensures
            styled_texts(strings@) == strings_for_shell(
                rendered_lines(self.segment_views(), 0, width),
                shell,
            ),
            !needs_markers(shell) ==> styled_texts(strings@) == rendered_lines(
                self.segment_views(),
                0,
                width,
            ),
    {
        let ghost views = self.segment_views();
        let mut ansi_strings: Vec<StyledString> = Vec::new();
        let mut start: usize = 0;
        while start < self.segments.len()
            invariant
                views == self.segment_views(),
                start <= self.segments.len(),
                rendered_lines(views, 0, width) == styled_texts(ansi_strings@) + rendered_lines(
                    views,
                    start as int,
                    width,
                ),
            decreases self.segments.len() - start,
        {
            let (mut line, next) = ansi_line(&self.segments, start, width);
            ansi_strings.append(&mut line);
            start = next;
        }
        match shell {
            Shell::Bash => ansi_strings_modified(ansi_strings, shell),
            Shell::Zsh => ansi_strings_modified(ansi_strings, shell),
            Shell::Tcsh => ansi_strings_modified(ansi_strings, shell),
            _ => ansi_strings,
        }
    }

    /// The characters a terminal is sent for the module, rendered for no
    /// shell in particular and without a target width: what `ansi_term`
    /// writes for the strings that the segments give on their own.
    pub fn to_string(&self) -> (out: String)
        ensures
            out@ == painted_all(unfilled(self.segment_views())),
    {
        let ansi_strings = self.ansi_strings();
        paint_all(&ansi_strings)
    }
}

} // verus!
