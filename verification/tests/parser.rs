use comet2::parser::ParserState;

fn parse_a_d_d(ps: &mut ParserState) -> Option<String> {
    let c1 = ps.ascii_alphabet()?;
    let c2 = ps.digit()?;
    let c3 = ps.digit()?;
    Some(format!("{}{}{}", c1, c2, c3))
}

#[test]
fn any_char() {
    assert_eq!(ParserState::new("Hello, world").any_char(), Some('H'));
    assert_eq!(ParserState::new("おはよう").any_char(), Some('お'));
    assert_eq!(ParserState::new("🦀").any_char(), Some('🦀'));
}

#[test]
fn satisfy() {
    assert_eq!(ParserState::new("123").satisfy(char::is_numeric), Some('1'));
    assert_eq!(ParserState::new("abc").satisfy(char::is_numeric), None);
}

#[test]
fn char() {
    assert_eq!(ParserState::new("hello").char('h'), Some('h'));
    assert_eq!(ParserState::new("hello").char('お'), None);
    assert_eq!(ParserState::new("🦀🦐").char('🦀'), Some('🦀'));
}

#[test]
fn a_d_d() {
    assert_eq!(parse_a_d_d(&mut ParserState::new("a21")), Some("a21".to_string()));
    assert_eq!(parse_a_d_d(&mut ParserState::new("2ae")), None);
    assert_eq!(parse_a_d_d(&mut ParserState::new("ae2")), None);
}

#[test]
fn matchers_consume_only_on_success() {
    let mut ps = ParserState::new("a1");
    assert_eq!(ps.digit(), None);
    assert_eq!(ps.ascii_alphabet(), Some('a'));
    assert_eq!(ps.ascii_alphanumeric(), Some('1'));
    assert_eq!(ps.any_char(), None);
}

#[test]
fn never_matches_nothing() {
    let mut ps = ParserState::new("xyz");
    assert_eq!(ps.never(), None);
    assert_eq!(ps.peek(), Some('x'));
}

#[test]
fn case_matchers_follow_unicode() {
    assert_eq!(ParserState::new("Abc").upper(), Some('A'));
    assert_eq!(ParserState::new("abc").upper(), None);
    assert_eq!(ParserState::new("abc").lower(), Some('a'));
    assert_eq!(ParserState::new("Abc").lower(), None);
    assert_eq!(ParserState::new("Ａ").ascii_alphabet(), None);
}
