use strtokenizer::{str_to_vec, CommentsTypes, StringTokenizer, Token};

fn word(text: &str) -> Token {
    Token::Word(String::from(text))
}

fn keyword(text: &str) -> Token {
    Token::KeyWord(String::from(text))
}

fn number(text: &str) -> Token {
    Token::Number(String::from(text))
}

fn special(c: char) -> Token {
    Token::SpecialChar(c)
}

fn scan_all(scanner: &mut StringTokenizer) -> Vec<Token> {
    let mut tokens = Vec::new();
    while scanner.has_token() {
        tokens.push(scanner.token().clone());
    }
    tokens
}

fn scan_with(text: &str, mode: CommentsTypes) -> Vec<Token> {
    let mut scanner = StringTokenizer::new_with_str(String::from(text));
    scanner.set_comments(mode);
    scan_all(&mut scanner)
}

#[test]
fn test_with_strotkenierrs() {
    let file = String::from(
        "/* a sample */\nfn main() {\n    let i = 42;\n    let j = 42.42;\n    let h = 2345678;\n    // a note on h\n    let s = \"a \\\"quoted\\\" word\";\n}\n",
    );
    let mut st = StringTokenizer::new_with_str(file);
    st.set_comments(CommentsTypes::AllComments);
    st.set_new_line_as_token(false);
    st.add_keyword(String::from("let"));
    let mut tokens = Vec::new();
    while st.has_token() {
        match st.token() {
            Token::SpecialChar(c) => println!("SPECIAL CHAR : {}", c),
            Token::Word(text) => println!("WORD : {}", text),
            Token::Number(text) => println!("NUMBER : {}", text),
            Token::KeyWord(text) => println!("KEYWORD : {}", text),
            Token::NoToken => {}
        }
        tokens.push(st.token().clone());
    }
    assert_eq!(
        tokens,
        vec![
            word("fn"),
            word("main"),
            special('('),
            special(')'),
            special('{'),
            keyword("let"),
            word("i"),
            special('='),
            number("42"),
            special(';'),
            keyword("let"),
            word("j"),
            special('='),
            number("42.42"),
            special(';'),
            keyword("let"),
            word("h"),
            special('='),
            number("2345678"),
            special(';'),
            keyword("let"),
            word("s"),
            special('='),
            word("\"a \\\"quoted\\\" word\""),
            special(';'),
            special('}'),
        ]
    );
}

#[test]
fn default_configuration_splits_words() {
    let mut scanner = StringTokenizer::new_with_str(String::from("foo bar"));
    assert_eq!(*scanner.token(), Token::NoToken);
    assert!(scanner.has_token());
    assert_eq!(*scanner.token(), word("foo"));
    assert!(scanner.has_token());
    assert_eq!(*scanner.token(), word("bar"));
    assert!(!scanner.has_token());
    assert!(!scanner.has_token());
}

#[test]
fn keyword_word_special_number() {
    let mut scanner = StringTokenizer::new(str_to_vec(String::from("let x = 1")));
    scanner.add_keyword(String::from("let"));
    assert_eq!(
        scan_all(&mut scanner),
        vec![keyword("let"), word("x"), special('='), number("1")]
    );
    assert!(!scanner.has_token());
}

#[test]
fn escaped_quote_stays_inside_the_literal() {
    let text = "\"a\\\"b\"";
    assert_eq!(text.chars().count(), 6);
    let mut scanner = StringTokenizer::new_with_str(String::from(text));
    assert!(scanner.has_token());
    assert_eq!(*scanner.token(), word("\"a\\\"b\""));
    assert_eq!(scanner.cursor(), 6);
    assert!(!scanner.has_token());
}

#[test]
fn unescaped_quote_closes_the_literal() {
    let mut scanner = StringTokenizer::new_with_str(String::from("\"ab\"cd\"ef"));
    assert_eq!(
        scan_all(&mut scanner),
        vec![word("\"ab\""), word("cd\"ef")]
    );
}

#[test]
fn block_comment_is_skipped_when_enabled() {
    for mode in [CommentsTypes::CComments, CommentsTypes::AllComments] {
        assert_eq!(scan_with("/* skip */rest", mode), vec![word("rest")]);
    }
}

#[test]
fn block_comment_is_tokens_when_not_enabled() {
    for mode in [CommentsTypes::NoComments, CommentsTypes::CplusplusComments] {
        assert_eq!(
            scan_with("/* skip */rest", mode),
            vec![
                special('/'),
                special('*'),
                word("skip"),
                special('*'),
                special('/'),
                word("rest"),
            ]
        );
    }
}

#[test]
fn line_comment_is_skipped_with_its_newline() {
    for mode in [CommentsTypes::CplusplusComments, CommentsTypes::AllComments] {
        assert_eq!(scan_with("// x\nrest", mode), vec![word("rest")]);

        let mut scanner = StringTokenizer::new_with_str(String::from("// x\nrest"));
        scanner.set_comments(mode);
        scanner.set_new_line_as_token(true);
        assert_eq!(scan_all(&mut scanner), vec![word("rest")]);
    }
}

#[test]
fn line_comment_is_tokens_when_not_enabled() {
    for mode in [CommentsTypes::NoComments, CommentsTypes::CComments] {
        let mut scanner = StringTokenizer::new_with_str(String::from("// x\nrest"));
        scanner.set_comments(mode);
        scanner.set_new_line_as_token(true);
        assert_eq!(
            scan_all(&mut scanner),
            vec![special('/'), special('/'), word("x"), special('\n'), word("rest")]
        );
    }
}

#[test]
fn is_number_accepts_one_dot_only() {
    let chars = |text: &str| str_to_vec(String::from(text));
    assert!(StringTokenizer::is_number(&chars("3.14")));
    assert!(!StringTokenizer::is_number(&chars("3.1.4")));
    assert!(!StringTokenizer::is_number(&chars("3a")));
}
