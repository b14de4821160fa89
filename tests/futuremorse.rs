use futuremorse::{
    encode, encode_text, morse, sample_count, Action, CWAlphabet, ConfigurationError, Envelope,
    RunError, Session, SinkState, SinkStatus, Timing,
};
use CWAlphabet::{Dash, Dot, LetterSpace, WordSpace};

fn run_to_end(session: &mut Session, max: usize) -> Vec<bool> {
    let mut all = Vec::new();
    loop {
        match session.poll(max) {
            Action::Write(chunk) => {
                assert!(chunk.len() <= max);
                assert!(!session.is_finished());
                all.extend_from_slice(&chunk);
                session.report(true).unwrap();
            }
            Action::Finalize => break,
        }
    }
    all
}

fn expand_all(symbols: &[CWAlphabet], timing: &Timing) -> Vec<bool> {
    let mut all = Vec::new();
    for s in symbols {
        all.extend(s.expand(timing));
    }
    all
}

#[test]
fn it_works() {
    assert_eq!(2 + 2, 4);
}

#[test]
fn letters_end_in_letter_space() {
    for c in "ABCDEFGHIJKLMNOPQRSTUVWXYZ0123456789".chars() {
        let code = morse(&c);
        assert!(code.len() >= 2);
        assert_eq!(*code.last().unwrap(), LetterSpace);
    }
    assert_eq!(morse(&'E'), vec![Dot, LetterSpace]);
    assert_eq!(morse(&'0'), vec![Dash, Dash, Dash, Dash, Dash, LetterSpace]);
    assert_eq!(morse(&'Q'), vec![Dash, Dash, Dot, Dash, LetterSpace]);
}

#[test]
fn unknown_characters_are_one_word_space() {
    for c in [' ', '?', 'a', ',', '\n'] {
        assert_eq!(morse(&c), vec![WordSpace]);
    }
}

#[test]
fn timing_from_sample_rate() {
    assert_eq!(Timing::new(48000).unwrap().dot_length(), 2400);
    assert_eq!(Timing::new(20).unwrap().dot_length(), 1);
    assert_eq!(Timing::standard().dot_length(), 2400);
    assert_eq!(Timing::new(19).unwrap_err(), ConfigurationError::ZeroDotLength);
    assert_eq!(Timing::new(0).unwrap_err(), ConfigurationError::ZeroDotLength);
}

#[test]
fn expansions_have_fixed_lengths() {
    let t = Timing::standard();
    let dot = Dot.expand(&t);
    assert_eq!(dot.len(), 4800);
    assert!(dot[..2400].iter().all(|b| *b));
    assert!(dot[2400..].iter().all(|b| !*b));
    let dash = Dash.expand(&t);
    assert_eq!(dash.len(), 9600);
    assert!(dash[..7200].iter().all(|b| *b));
    assert!(dash[7200..].iter().all(|b| !*b));
    let letter = LetterSpace.expand(&t);
    assert_eq!(letter.len(), 7200);
    assert!(letter.iter().all(|b| !*b));
    let word = WordSpace.expand(&t);
    assert_eq!(word.len(), 7200);
    assert!(word.iter().all(|b| !*b));
    for s in [Dot, Dash, LetterSpace, WordSpace] {
        assert_eq!(s.expand(&t).len() % 2400, 0);
        assert_eq!(s.expand(&t).len(), s.units() * 2400);
    }
}

#[test]
fn expanding_twice_is_identical() {
    let t = Timing::new(8000).unwrap();
    for s in [Dot, Dash, LetterSpace, WordSpace] {
        assert_eq!(s.expand(&t), s.expand(&t));
    }
}

#[test]
fn sample_at_follows_envelope() {
    let t = Timing::new(100).unwrap();
    assert_eq!(t.dot_length(), 5);
    assert!(Dash.sample_at(&t, 14));
    assert!(!Dash.sample_at(&t, 15));
    assert!(Dot.sample_at(&t, 0));
    assert!(!Dot.sample_at(&t, 5));
}

#[test]
fn scenario_single_e() {
    let t = Timing::standard();
    let symbols = encode_text("E");
    assert_eq!(symbols, vec![Dot, LetterSpace]);
    assert_eq!(sample_count(&symbols, &t), Some(2 * 2400 + 3 * 2400));
    let mut session = Session::new("E", t).unwrap();
    let all = run_to_end(&mut session, 1000);
    assert_eq!(all.len(), 12000);
    assert_eq!(session.consumed(), 12000);
    assert!(session.is_finished());
}

#[test]
fn scenario_sos() {
    let t = Timing::standard();
    let symbols = encode_text("SOS");
    assert_eq!(
        symbols,
        vec![
            Dot, Dot, Dot, LetterSpace, Dash, Dash, Dash, LetterSpace, Dot, Dot, Dot, LetterSpace
        ]
    );
    let expected: u64 = (9 + 15 + 9) * 2400;
    assert_eq!(sample_count(&symbols, &t), Some(expected));
    let mut session = Session::new("SOS", t).unwrap();
    let all = run_to_end(&mut session, 4096);
    assert_eq!(all.len() as u64, expected);
    assert_eq!(all, expand_all(&symbols, &t));
    assert_eq!(session.consumed(), expected);
    assert!(session.is_finished());
}

#[test]
fn lower_case_is_taken_to_upper_case() {
    assert_eq!(encode_text("sos"), encode_text("SOS"));
    assert_eq!(encode_text("e"), vec![Dot, LetterSpace]);
    assert_eq!(encode(&vec!['e']), vec![WordSpace]);
}

#[test]
fn scenario_space_between_words() {
    let symbols = encode_text("A B");
    assert_eq!(
        symbols,
        vec![Dot, Dash, LetterSpace, WordSpace, Dash, Dot, Dot, Dot, LetterSpace]
    );
    assert_eq!(symbols.iter().filter(|s| **s == WordSpace).count(), 1);
    let t = Timing::new(200).unwrap();
    let gap = WordSpace.expand(&t);
    assert_eq!(gap.len(), 3 * 10);
    assert!(gap.iter().all(|b| !*b));
}

#[test]
fn scenario_write_failure() {
    let mut session = Session::new("SOS", Timing::standard()).unwrap();
    match session.poll(1000) {
        Action::Write(chunk) => assert_eq!(chunk.len(), 1000),
        Action::Finalize => panic!("the message is not empty"),
    }
    session.report(true).unwrap();
    match session.poll(1000) {
        Action::Write(chunk) => assert_eq!(chunk.len(), 1000),
        Action::Finalize => panic!("the message is not empty"),
    }
    assert_eq!(session.report(false), Err(RunError::WriteError));
    assert!(!session.is_finished());
    assert_eq!(session.consumed(), 1000);
}

#[test]
fn empty_message_finalizes_at_once() {
    let mut session = Session::new("", Timing::standard()).unwrap();
    assert!(!session.is_finished());
    assert!(matches!(session.poll(64), Action::Finalize));
    assert!(session.is_finished());
    assert_eq!(session.consumed(), 0);
    assert!(encode_text("").is_empty());
}

#[test]
fn chunks_concatenate_to_the_envelope() {
    let t = Timing::new(60).unwrap();
    let symbols = encode(&vec!['K', ' ', '7']);
    let mut source = Envelope::new(symbols.clone(), t);
    let mut all = Vec::new();
    while !source.is_exhausted() {
        let chunk = source.next_chunk(7);
        assert!(chunk.len() <= 7);
        all.extend(chunk);
    }
    assert!(source.next_chunk(7).is_empty());
    assert_eq!(all, expand_all(&symbols, &t));
    assert_eq!(Some(all.len() as u64), sample_count(&symbols, &t));
}

#[test]
fn sink_counts_and_closes() {
    let mut sink = SinkState::new();
    assert_eq!(sink.status(), SinkStatus::Open);
    assert_eq!(sink.accept(0, true), Ok(()));
    assert_eq!(sink.consumed(), 0);
    assert_eq!(sink.accept(17, true), Ok(()));
    assert_eq!(sink.consumed(), 17);
    assert!(!sink.is_finished());
    sink.mark_upstream_finished();
    assert!(sink.is_finished());
    assert_eq!(sink.consumed(), 17);
    let mut failing = SinkState::new();
    assert_eq!(failing.accept(5, false), Err(RunError::WriteError));
    assert_eq!(failing.status(), SinkStatus::Failed);
    assert_eq!(failing.consumed(), 0);
}

#[test]
fn notation_of_elements() {
    let text: String = encode_text("SOS ").iter().map(|s| s.notation()).collect();
    assert_eq!(text, "... --- ...  / ");
}

#[test]
fn file_names_from_base64() {
    let (wav, mp3) = futuremorse::file_names("SOS");
    assert_eq!(wav, "U09T.wav");
    assert_eq!(mp3, "U09T.mp3");
    let (wav, _) = futuremorse::file_names("hi");
    assert_eq!(wav, "aGk=.wav");
}

#[test]
fn spoiler_mark_is_stripped() {
    assert_eq!(futuremorse::strip_spoiler("SOS||"), "SOS");
    assert_eq!(futuremorse::strip_spoiler("SOS|"), "SOS|");
    assert_eq!(futuremorse::strip_spoiler("||"), "");
    assert_eq!(futuremorse::strip_spoiler("é||"), "é");
    assert_eq!(futuremorse::strip_spoiler(""), "");
}
