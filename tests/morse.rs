use morse_beeper::playback::{
    glyph_stream, playback_steps, prepare, steps_for_char, steps_for_code, Step, CHAR_GAP_MS, DASH_MS, DOT_MS,
    TONE_HZ, WORD_GAP_MS,
};
use morse_beeper::table::{code_of_upper, is_allowed, key_code, lookup, Symbol};
use morse_beeper::validate::{validate, Args, MessageError, MAX_MESSAGE_LEN};

fn code_text(c: char) -> String {
    lookup(c).unwrap().iter().map(|s| s.glyph()).collect()
}

fn glyph_text(steps: &Vec<Step>) -> String {
    glyph_stream(steps).into_iter().collect()
}

#[test]
fn lookup_letters_digits_and_marks() {
    assert_eq!(code_text('A'), ".-");
    assert_eq!(code_text('S'), "...");
    assert_eq!(code_text('O'), "---");
    assert_eq!(code_text('Q'), "--.-");
    assert_eq!(code_text('0'), "-----");
    assert_eq!(code_text('9'), "----.");
    assert_eq!(code_text(','), "--..--");
    assert_eq!(code_text('.'), ".-.-.-");
    assert_eq!(code_text('?'), "..--..");
    assert_eq!(code_text('/'), "-..-.");
    assert_eq!(code_text('-'), "-....-");
    assert_eq!(code_text('('), "-.--.");
    assert_eq!(code_text(')'), "-.--.-");
}

#[test]
fn lookup_ignores_case() {
    for (l, u) in ('a'..='z').zip('A'..='Z') {
        assert_eq!(lookup(l), lookup(u));
        assert!(lookup(l).is_some());
    }
    assert_eq!(lookup('b'), Some(vec![Symbol::Dash, Symbol::Dot, Symbol::Dot, Symbol::Dot]));
}

#[test]
fn lookup_misses() {
    assert_eq!(lookup('#'), None);
    assert_eq!(lookup(' '), None);
    assert_eq!(lookup('!'), None);
    assert_eq!(lookup('é'), None);
    assert_eq!(lookup('é'), None);
    assert!(!is_allowed('#'));
    assert!(!is_allowed('é'));
    assert!(is_allowed('z'));
    assert!(is_allowed(' '));
}

#[test]
fn lookup_uses_unicode_upper_case() {
    // U+0131 (dotless i) and U+017F (long s) upper-case to `I` and `S`.
    assert_eq!(lookup('\u{131}'), lookup('I'));
    assert_eq!(lookup('\u{17F}'), lookup('S'));
    // `ß` upper-cases to two characters, which is no single key.
    assert_eq!(lookup('ß'), None);
    assert!(is_allowed('\u{131}'));
    assert!(!is_allowed('ß'));
    assert!(!is_allowed('\u{FB01}'));
    // U+01F0 upper-cases to `J` and a combining caron, which has no code.
    assert!(!is_allowed('\u{1F0}'));
}

#[test]
fn key_code_matches_keys_only() {
    assert_eq!(key_code('A'), Some(vec![Symbol::Dot, Symbol::Dash]));
    assert_eq!(key_code('a'), None);
}

#[test]
fn unicode_upper_case_messages() {
    assert_eq!(validate("\u{131}"), Ok(()));
    assert_eq!(validate("\u{17F}os"), Ok(()));
    assert_eq!(validate("stra\u{DF}e"), Err(MessageError::UnsupportedCharacter));
    assert_eq!(validate("\u{FB01}"), Err(MessageError::UnsupportedCharacter));
    assert_eq!(validate("\u{1F0}"), Err(MessageError::UnsupportedCharacter));
    assert_eq!(validate("é"), Err(MessageError::UnsupportedCharacter));
}

#[test]
fn code_of_upper_case_mapping() {
    assert_eq!(code_of_upper(&vec!['S']), Some(vec![Symbol::Dot, Symbol::Dot, Symbol::Dot]));
    assert_eq!(code_of_upper(&vec!['S', 'S']), None);
    assert_eq!(code_of_upper(&vec![]), None);
    assert_eq!(code_of_upper(&vec!['#']), None);
}

#[test]
fn unicode_upper_case_plays_its_key() {
    assert_eq!(steps_for_char('\u{131}'), steps_for_char('I'));
    assert_eq!(glyph_text(&steps_for_char('\u{17F}')), "...");
}

#[test]
fn empty_message_is_refused() {
    assert_eq!(validate(""), Err(MessageError::EmptyInput));
    assert_eq!(Args { msg: String::new() }.check(), Err(MessageError::EmptyInput));
}

#[test]
fn too_long_message_is_refused() {
    let long = "A".repeat(101);
    assert_eq!(validate(&long), Err(MessageError::TooLong));
    assert_eq!(validate(&"#".repeat(101)), Err(MessageError::TooLong));
    assert_eq!(validate(&"a".repeat(MAX_MESSAGE_LEN)), Ok(()));
}

#[test]
fn length_counts_characters() {
    // 60 characters, 120 bytes: refused for its characters, not its length.
    assert_eq!(validate(&"é".repeat(60)), Err(MessageError::UnsupportedCharacter));
}

#[test]
fn unsupported_character_is_refused() {
    assert_eq!(validate("A#"), Err(MessageError::UnsupportedCharacter));
    assert_eq!(validate("hello!"), Err(MessageError::UnsupportedCharacter));
    let args = Args { msg: "A#".to_string() };
    assert_eq!(args.check(), Err(MessageError::UnsupportedCharacter));
}

#[test]
fn supported_messages_are_accepted() {
    assert_eq!(validate("SOS"), Ok(()));
    assert_eq!(validate("a b"), Ok(()));
    assert_eq!(validate(" "), Ok(()));
    assert_eq!(validate("Hello, World (1/2)?"), Ok(()));
    let args = Args { msg: "Sos".to_string() };
    assert_eq!(args.check(), Ok(()));
    assert_eq!(args.msg, "Sos");
}

#[test]
fn error_descriptions() {
    assert_eq!(MessageError::EmptyInput.description(), "Message cannot be empty");
    assert_eq!(
        MessageError::TooLong.description(),
        "Message cannot be longer than 100 characters"
    );
    assert_eq!(
        MessageError::UnsupportedCharacter.description(),
        "Message can only contain letters and numbers"
    );
}

#[test]
fn sos_glyph_stream() {
    let steps = playback_steps("SOS");
    assert_eq!(glyph_text(&steps), "...---...");
    let breaks = steps.iter().filter(|s| **s == Step::LineBreak).count();
    assert_eq!(breaks, 3);
}

#[test]
fn lower_case_space_message() {
    let steps = prepare("a b").unwrap();
    let expected = vec![
        Step::Glyph(Symbol::Dot),
        Step::Tone(DOT_MS),
        Step::Glyph(Symbol::Dash),
        Step::Tone(DASH_MS),
        Step::Pause(CHAR_GAP_MS),
        Step::LineBreak,
        Step::LineBreak,
        Step::Pause(WORD_GAP_MS),
        Step::Glyph(Symbol::Dash),
        Step::Tone(DASH_MS),
        Step::Glyph(Symbol::Dot),
        Step::Tone(DOT_MS),
        Step::Glyph(Symbol::Dot),
        Step::Tone(DOT_MS),
        Step::Glyph(Symbol::Dot),
        Step::Tone(DOT_MS),
        Step::Pause(CHAR_GAP_MS),
        Step::LineBreak,
    ];
    assert_eq!(steps, expected);
    assert_eq!(glyph_text(&steps), ".--...");
}

#[test]
fn space_has_no_tone() {
    let steps = steps_for_char(' ');
    assert_eq!(steps, vec![Step::LineBreak, Step::Pause(WORD_GAP_MS)]);
    assert!(!steps.iter().any(|s| matches!(s, Step::Tone(_))));
}

#[test]
fn timing_constants() {
    assert_eq!(TONE_HZ, 700);
    assert_eq!(DOT_MS, 50);
    assert_eq!(DASH_MS, 150);
    assert_eq!(CHAR_GAP_MS, 300);
    assert_eq!(WORD_GAP_MS, 150);
    assert_eq!(Symbol::Dot.tone_ms(), 50);
    assert_eq!(Symbol::Dash.tone_ms(), 150);
}

#[test]
fn glyph_stream_is_concatenated_codes() {
    let msg = "Hi 5? (x)";
    let steps = playback_steps(msg);
    let expected: String = msg.chars().filter(|c| *c != ' ').map(code_text).collect();
    assert_eq!(glyph_text(&steps), expected);
    assert_eq!(glyph_text(&steps), ".............--..-.--.-..--.--.-");
}

#[test]
fn letter_steps_in_either_case() {
    let expected = vec![
        Step::Glyph(Symbol::Dot),
        Step::Tone(DOT_MS),
        Step::Pause(CHAR_GAP_MS),
        Step::LineBreak,
    ];
    assert_eq!(steps_for_char('e'), expected);
    assert_eq!(steps_for_char('E'), expected);
    assert_eq!(steps_for_code(&vec![Symbol::Dot]), expected);
}

#[test]
fn prepare_reports_errors() {
    assert_eq!(prepare(""), Err(MessageError::EmptyInput));
    assert_eq!(prepare(&"A".repeat(101)), Err(MessageError::TooLong));
    assert_eq!(prepare("A#"), Err(MessageError::UnsupportedCharacter));
}
