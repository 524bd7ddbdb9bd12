use usiem_enrichment::csv::{split_column_values, split_plain, transform_escape_char, CsvLexer, Token};

#[test]
fn test_split_csv() {
    let res = split_column_values(r#"1.9.0.0/16,4788,"TM Net, Internet Service Provider""#);
    assert_eq!("1.9.0.0/16", res.get(0).unwrap().as_str());
    assert_eq!("4788", res.get(1).unwrap().as_str());
    assert_eq!("TM Net, Internet Service Provider", res.get(2).unwrap().as_str());

    let res = split_column_values(
        r#"2057192,en,OC,Oceania,AU,Australia,SA,"South Australia",,,Yunta,,Australia/Adelaide,0"#,
    );
    assert_eq!("2057192", res.get(0).unwrap().as_str());
    assert_eq!("Australia/Adelaide", res.get(12).unwrap().as_str());
}

#[test]
fn split_zero_delimiters_yields_one_field() {
    let res = split_column_values("plain");
    assert_eq!(1, res.len());
    assert_eq!("plain", res[0].as_str());
    let res = split_column_values("");
    assert_eq!(1, res.len());
    assert_eq!("", res[0].as_str());
}

#[test]
fn split_trailing_delimiter_yields_empty_field() {
    let res = split_column_values("a,");
    assert_eq!(2, res.len());
    assert_eq!("a", res[0].as_str());
    assert_eq!("", res[1].as_str());
    let res = split_column_values("a,,b");
    assert_eq!(3, res.len());
    assert_eq!("", res[1].as_str());
}

#[test]
fn split_keeps_escaped_quote_span_raw() {
    // the backslash keeps the quote from ending the span; the splitter
    // hands the span back raw, with the backslash still in place
    let res = split_column_values(r#"a,"say \"hi\"",b"#);
    assert_eq!(3, res.len());
    assert_eq!(r#"say \"hi\""#, res[1].as_str());
    assert_eq!("b", res[2].as_str());
}

#[test]
fn split_round_trip_concrete() {
    // escaping then splitting returns the pre-escape fields
    let fields = ["alpha", "with,comma", "", "tail"];
    let mut line = String::new();
    for (i, f) in fields.iter().enumerate() {
        if i > 0 {
            line.push(',');
        }
        if f.contains(',') {
            line.push('"');
            line.push_str(f);
            line.push('"');
        } else {
            line.push_str(f);
        }
    }
    let res = split_column_values(&line);
    assert_eq!(fields.len(), res.len());
    for (f, got) in fields.iter().zip(res.iter()) {
        assert_eq!(*f, got.as_str());
    }
}

#[test]
fn split_plain_cuts_every_comma() {
    let res = split_plain(r#"a,"b,c",d"#);
    assert_eq!(4, res.len());
    assert_eq!("\"b", res[1].as_str());
    assert_eq!("c\"", res[2].as_str());
}

#[test]
fn escape_table_mappings() {
    assert_eq!(Ok('\n'), transform_escape_char('n'));
    assert_eq!(Ok('\t'), transform_escape_char('t'));
    assert_eq!(Ok('\r'), transform_escape_char('r'));
    assert_eq!(Ok('\0'), transform_escape_char('0'));
    assert_eq!(Err(()), transform_escape_char('*'));
    assert_eq!(Ok('"'), transform_escape_char('"'));
    assert_eq!(Ok('x'), transform_escape_char('x'));
}

#[test]
fn lexer_unescapes_quoted_values() {
    let input: Vec<char> = r#""a\tb",c"#.chars().collect();
    let mut lexer = CsvLexer::new(input);
    lexer.read_char();
    let tok = lexer.next_token();
    assert_eq!(Token::String("a\tb".to_string()), tok);
    // the lexer stands on the delimiter after a quoted value
    assert_eq!(Token::COMMA, lexer.next_token());
    assert_eq!(Token::String("c".to_string()), lexer.next_token());
}

#[test]
fn lexer_emits_comma_token_for_empty_field() {
    let input: Vec<char> = ",x".chars().collect();
    let mut lexer = CsvLexer::new(input);
    lexer.read_char();
    assert_eq!(Token::COMMA, lexer.next_token());
    assert_eq!(Token::String("x".to_string()), lexer.next_token());
}

#[test]
fn lexer_invalid_escape_keeps_backslash() {
    let input: Vec<char> = r#""a\*b""#.chars().collect();
    let mut lexer = CsvLexer::new(input);
    lexer.read_char();
    assert_eq!(Token::String(r"a\*b".to_string()), lexer.next_token());
}

#[test]
fn lexer_doubled_backslash_yields_one() {
    let input: Vec<char> = r#""a\\b""#.chars().collect();
    let mut lexer = CsvLexer::new(input);
    lexer.read_char();
    assert_eq!(Token::String(r"a\b".to_string()), lexer.next_token());
}
