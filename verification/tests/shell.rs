use promptline::shell::{wrap_colorseq_for_shell, wrap_seq_for_shell, Shell};

const RED_HI: &str = "\u{1b}[31mhi\u{1b}[0m";

fn other_shells() -> [Shell; 7] {
    [
        Shell::Fish,
        Shell::Ion,
        Shell::PowerShell,
        Shell::Elvish,
        Shell::Nu,
        Shell::Xonsh,
        Shell::Unknown,
    ]
}

#[test]
fn bash_gets_backslash_brackets() {
    assert_eq!(
        wrap_colorseq_for_shell(RED_HI.to_string(), Shell::Bash),
        "\\[\u{1b}[31m\\]hi\\[\u{1b}[0m\\]"
    );
}

#[test]
fn zsh_gets_percent_braces() {
    assert_eq!(
        wrap_colorseq_for_shell(RED_HI.to_string(), Shell::Zsh),
        "%{\u{1b}[31m%}hi%{\u{1b}[0m%}"
    );
}

#[test]
fn tcsh_gets_percent_braces() {
    assert_eq!(
        wrap_colorseq_for_shell(RED_HI.to_string(), Shell::Tcsh),
        "%{\u{1b}[31m%}hi%{\u{1b}[0m%}"
    );
}

#[test]
fn other_shells_get_the_text_as_it_is() {
    for shell in other_shells() {
        assert_eq!(wrap_colorseq_for_shell(RED_HI.to_string(), shell), RED_HI);
        assert_eq!(
            wrap_seq_for_shell("a<b>c".to_string(), shell, '<', '>'),
            "a<b>c"
        );
    }
}

#[test]
fn text_without_escape_sequence_is_unchanged() {
    assert_eq!(
        wrap_colorseq_for_shell("plain m text".to_string(), Shell::Bash),
        "plain m text"
    );
    assert_eq!(wrap_colorseq_for_shell(String::new(), Shell::Zsh), "");
}

#[test]
fn end_character_outside_a_sequence_is_text() {
    assert_eq!(
        wrap_colorseq_for_shell("m\u{1b}[1mm".to_string(), Shell::Bash),
        "m\\[\u{1b}[1m\\]m"
    );
}

#[test]
fn sequences_do_not_nest() {
    assert_eq!(
        wrap_colorseq_for_shell("\u{1b}[\u{1b}[1mx".to_string(), Shell::Bash),
        "\\[\u{1b}[\u{1b}[1m\\]x"
    );
}

#[test]
fn unfinished_sequence_gets_no_end_marker() {
    assert_eq!(
        wrap_colorseq_for_shell("a\u{1b}[1".to_string(), Shell::Zsh),
        "a%{\u{1b}[1"
    );
}

#[test]
fn any_pair_of_characters_can_bound_a_sequence() {
    assert_eq!(
        wrap_seq_for_shell("a<b>c>d<e".to_string(), Shell::Bash, '<', '>'),
        "a\\[<b>\\]c>d\\[<e"
    );
    assert_eq!(
        wrap_seq_for_shell("|a|b|".to_string(), Shell::Zsh, '|', '|'),
        "%{|a|%}b%{|"
    );
}

#[test]
fn markers_taken_out_give_the_text_back() {
    let texts = [
        RED_HI,
        "\u{1b}[1;36m☸ ctx\u{1b}[0m in ",
        "no escape at all",
        "",
    ];
    for text in texts {
        let bash = wrap_colorseq_for_shell(text.to_string(), Shell::Bash);
        assert_eq!(bash.replace("\\[", "").replace("\\]", ""), text);
        let zsh = wrap_colorseq_for_shell(text.to_string(), Shell::Zsh);
        assert_eq!(zsh.replace("%{", "").replace("%}", ""), text);
        let tcsh = wrap_colorseq_for_shell(text.to_string(), Shell::Tcsh);
        assert_eq!(tcsh.replace("%{", "").replace("%}", ""), text);
    }
}

#[test]
fn visible_text_is_untouched() {
    let wrapped = wrap_colorseq_for_shell(RED_HI.to_string(), Shell::Bash);
    let unwrapped = wrapped.replace("\\[", "").replace("\\]", "");
    let visible = unwrapped.replace("\u{1b}[31m", "").replace("\u{1b}[0m", "");
    assert_eq!(visible, "hi");
}

#[test]
fn default_shell_is_unknown() {
    assert_eq!(Shell::default(), Shell::Unknown);
}
