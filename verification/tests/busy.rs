//! The busy predicate on status-line captures of the supervised program.

use cursor_cli_wrapper::monitor::is_busy;

// -- Generating states --

#[test]
fn generating_filled_hexagon_three_dots() {
    assert!(is_busy("  ⬢ Generating..."));
}

#[test]
fn generating_hollow_hexagon_one_dot() {
    assert!(is_busy("  ⬡ Generating."));
}

#[test]
fn generating_filled_hexagon_no_dots() {
    assert!(!is_busy("  ⬢ Generating"));
}

// -- Thinking states --

#[test]
fn thinking_hollow_hexagon_three_dots() {
    assert!(is_busy("  ⬡ Thinking...  202 tokens"));
}

#[test]
fn thinking_filled_hexagon_one_dot() {
    assert!(is_busy("  ⬢ Thinking.    202 tokens"));
}

#[test]
fn thinking_hollow_hexagon_no_dots() {
    assert!(!is_busy("  ⬡ Thinking     202 tokens"));
}

// -- Done / idle state --

#[test]
fn done_state_is_not_busy() {
    let done_text = "  I think you're saying that \"this\" — the current AI interaction \
                     you're having right now — is \"a prompt that's running\"";
    assert!(!is_busy(done_text));
}

#[test]
fn plain_text_is_not_busy() {
    assert!(!is_busy("Generating..."));
    assert!(!is_busy("Hello world"));
    assert!(!is_busy(""));
}

// -- Edges of the predicate --

#[test]
fn dot_before_glyph_is_not_busy() {
    assert!(!is_busy("wait... ⬢ Generating"));
}

#[test]
fn newline_between_glyph_and_dot_is_not_busy() {
    assert!(!is_busy("  ⬢ Generating\n..."));
}

#[test]
fn glyph_and_dot_on_second_line_is_busy() {
    assert!(is_busy("all done\n  ⬡ Thinking."));
}
