use passgen::generate::generate_random_chars;
use passgen::letters::Letters;
use passgen::options::{is_valid_length, Options};
use passgen::parse::parse_length;
use passgen::population::build_population;
use passgen::session::{
    on_menu_answer, on_menu_key, session_start, submit_options, Answer, SessionState,
};

const LOWER: &str = "abcdefghijklmnopqrstuvwxyz";
const UPPER: &str = "ABCDEFGHIJKLMNOPQRSTUVWXYZ";
const DIGITS: &str = "0123456789";
const SYMBOLS: &str = "`~!@#$%^&*()_+-=[]\\{}|;':\",./<>?";

fn letters(lowercase: bool, uppercase: bool, numbers: bool, symbols: bool) -> Letters {
    Letters {
        lowercase,
        uppercase,
        numbers,
        symbols,
    }
}

#[test]
fn parse_code_one_three() {
    let l = Letters::from_str("13");
    assert!(l.lowercase);
    assert!(!l.uppercase);
    assert!(l.numbers);
    assert!(!l.symbols);
}

#[test]
fn parse_code_empty_is_all_false() {
    let l = Letters::from_str("");
    assert!(!l.lowercase && !l.uppercase && !l.numbers && !l.symbols);
    assert!(!l.any_set());
}

#[test]
fn parse_code_ignores_garbage_and_duplicates() {
    let l = Letters::from_str("4x4!2");
    assert!(!l.lowercase);
    assert!(l.uppercase);
    assert!(!l.numbers);
    assert!(l.symbols);
}

#[test]
fn length_validator_rejects_bad_input() {
    assert_eq!(parse_length("0"), Some(0));
    assert!(!is_valid_length(0));
    assert_eq!(parse_length("-5"), None);
    assert_eq!(parse_length("abc"), None);
    assert_eq!(parse_length(""), None);
    assert_eq!(parse_length("12a"), None);
}

#[test]
fn length_validator_accepts_positive() {
    assert_eq!(parse_length("8"), Some(8));
    assert!(is_valid_length(8));
    assert_eq!(parse_length("144"), Some(144));
    assert!(is_valid_length(144));
}

#[test]
fn parse_length_overflow_is_rejected() {
    assert_eq!(parse_length("99999999999999999999999999"), None);
}

#[test]
fn class_validator_accepts_any_single_flag() {
    assert!(letters(true, false, false, false).any_set());
    assert!(letters(false, true, false, false).any_set());
    assert!(letters(false, false, true, false).any_set());
    assert!(letters(false, false, false, true).any_set());
    assert!(!letters(false, false, false, false).any_set());
}

#[test]
fn population_concatenates_in_fixed_order() {
    let l = letters(true, false, true, false);
    let pop = build_population(&l);
    let expected: Vec<char> = format!("{LOWER}{DIGITS}").chars().collect();
    assert_eq!(pop, expected);
}

#[test]
fn population_all_classes() {
    let l = letters(true, true, true, true);
    let pop = build_population(&l);
    let expected: Vec<char> = format!("{LOWER}{UPPER}{DIGITS}{SYMBOLS}").chars().collect();
    assert_eq!(pop, expected);
    assert_eq!(pop.len(), 94);
}

#[test]
fn population_symbols_only() {
    let l = letters(false, false, false, true);
    let pop = build_population(&l);
    let expected: Vec<char> = SYMBOLS.chars().collect();
    assert_eq!(pop, expected);
    assert_eq!(pop.len(), 32);
}

#[test]
fn population_is_deterministic() {
    let l = letters(true, true, false, true);
    assert_eq!(build_population(&l), build_population(&l));
}

#[test]
fn generate_has_requested_length_and_alphabet() {
    let options = Options {
        len: 8,
        allowed_letters: letters(true, false, false, false),
    };
    let chars = generate_random_chars(&options);
    assert_eq!(chars.len(), 8);
    for c in chars {
        assert!(c.is_ascii_lowercase());
    }
}

#[test]
fn generate_stays_inside_small_population() {
    // 200 draws from the ten-digit population: every draw must land on a
    // digit, which fails if an index ever leaves the population's bounds
    // or a foreign character slips in.
    let options = Options {
        len: 200,
        allowed_letters: letters(false, false, true, false),
    };
    let chars = generate_random_chars(&options);
    assert_eq!(chars.len(), 200);
    for c in chars {
        assert!(c.is_ascii_digit());
    }
}

#[test]
fn answer_find_maps_menu_keys() {
    assert_eq!(Answer::find('r'), Answer::Recreate);
    assert_eq!(Answer::find('s'), Answer::StartOver);
    assert_eq!(Answer::find('q'), Answer::Quit);
    assert_eq!(Answer::find('x'), Answer::ParseErr);
    assert_eq!(Answer::find('R'), Answer::ParseErr);
}

#[test]
fn letters_iter_yields_flags_in_fixed_order() {
    let l = letters(true, false, true, false);
    let mut it = l.iter();
    assert_eq!(it.next(), Some(true));
    assert_eq!(it.next(), Some(false));
    assert_eq!(it.next(), Some(true));
    assert_eq!(it.next(), Some(false));
    assert_eq!(it.next(), None);
}

#[test]
fn scenario_lowercase_only() {
    // Length 8, classes "1": an eight-character string over a-z.
    let len = parse_length("8").unwrap();
    assert!(is_valid_length(len));
    let allowed = Letters::from_str("1");
    assert!(allowed.any_set());
    let options = Options {
        len,
        allowed_letters: allowed,
    };
    let chars = generate_random_chars(&options);
    assert_eq!(chars.len(), 8);
    for c in chars {
        assert!(('a'..='z').contains(&c));
    }
}

#[test]
fn scenario_recreate_keeps_options() {
    // Length 4, classes "12", then menu key r: two sequences of length 4
    // over letters, instructions shown only for the first.
    let len = parse_length("4").unwrap();
    let allowed = Letters::from_str("12");
    let options = Options {
        len,
        allowed_letters: allowed,
    };
    let state = submit_options(options);
    assert_eq!(
        state,
        SessionState::ShowingResult {
            options,
            show_options: true
        }
    );
    let first = generate_random_chars(&options);
    assert_eq!(first.len(), 4);
    for c in &first {
        assert!(c.is_ascii_alphabetic());
    }
    let state = on_menu_key(state, 'r');
    assert_eq!(
        state,
        SessionState::ShowingResult {
            options,
            show_options: false
        }
    );
    let again = match state {
        SessionState::ShowingResult { options, .. } => options,
        _ => panic!("expected a showing state"),
    };
    assert_eq!(again, options);
    let second = generate_random_chars(&again);
    assert_eq!(second.len(), 4);
    for c in &second {
        assert!(c.is_ascii_alphabetic());
    }
}

#[test]
fn scenario_unrecognized_key_terminates() {
    // Length 5, classes "4", then menu key x: one sequence, then the
    // session ends.
    let len = parse_length("5").unwrap();
    let allowed = Letters::from_str("4");
    let options = Options {
        len,
        allowed_letters: allowed,
    };
    let state = submit_options(options);
    let chars = generate_random_chars(&options);
    assert_eq!(chars.len(), 5);
    for c in chars {
        assert!(SYMBOLS.contains(c));
    }
    let state = on_menu_key(state, 'x');
    assert_eq!(state, SessionState::Terminated);
}

#[test]
fn session_start_awaits_options() {
    assert_eq!(session_start(), SessionState::AwaitingOptions);
}

#[test]
fn menu_start_over_discards_options() {
    let options = Options {
        len: 3,
        allowed_letters: letters(true, true, true, true),
    };
    let state = submit_options(options);
    assert_eq!(on_menu_key(state, 's'), SessionState::AwaitingOptions);
    assert_eq!(on_menu_key(state, 'q'), SessionState::Terminated);
}

#[test]
fn failed_keystroke_read_quits() {
    let options = Options {
        len: 3,
        allowed_letters: letters(true, false, false, false),
    };
    let state = submit_options(options);
    assert_eq!(
        on_menu_answer(state, Answer::ParseErr),
        SessionState::Terminated
    );
}

#[test]
fn menu_keys_ignored_outside_result_state() {
    assert_eq!(
        on_menu_key(SessionState::AwaitingOptions, 'q'),
        SessionState::AwaitingOptions
    );
    assert_eq!(
        on_menu_key(SessionState::Terminated, 'r'),
        SessionState::Terminated
    );
}
