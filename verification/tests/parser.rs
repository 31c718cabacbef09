use list_comp::cursor::Cursor;
use list_comp::error::{Expected, SyntaxError};
use list_comp::parse;
use list_comp::syntax::{parse_zero_or_more, Binding, Comprehension, Condition, Mapping, Parse, Pattern};
use list_comp::token::{Spacing, Token};
use proc_macro2::TokenStream;

fn lex(source: &str) -> TokenStream {
    source.parse().expect("the source lexes")
}

fn shown(source: &str) -> String {
    lex(source).to_string()
}

fn expression(source: &str) -> String {
    let parsed: syn::Expr = syn::parse_str(source).expect("the source is an expression");
    quote::ToTokens::to_token_stream(&parsed).to_string()
}

fn ident(name: &str) -> Token {
    Token::Ident(name.to_string())
}

#[test]
fn empty_input_ends_before_the_mapping() {
    let error = parse(lex("")).err().unwrap();
    assert_eq!(error, SyntaxError::UnexpectedEnd { expected: Expected::Mapping, position: 0 });
    assert_eq!(error.position(), 0);
}

#[test]
fn input_that_ends_after_the_mapping() {
    let error = parse(lex("x * 2")).err().unwrap();
    assert_eq!(error, SyntaxError::UnexpectedEnd { expected: Expected::In, position: 3 });
}

#[test]
fn input_that_ends_after_in() {
    let error = parse(lex("x in")).err().unwrap();
    assert_eq!(error, SyntaxError::UnexpectedEnd { expected: Expected::Pattern, position: 2 });
}

#[test]
fn input_that_ends_after_the_pattern() {
    let error = parse(lex("x in x")).err().unwrap();
    assert_eq!(error, SyntaxError::UnexpectedEnd { expected: Expected::Arrow, position: 3 });
}

#[test]
fn input_that_ends_after_the_arrow() {
    let error = parse(lex("x in x <-")).err().unwrap();
    assert_eq!(error, SyntaxError::UnexpectedEnd { expected: Expected::Iterable, position: 5 });
    assert_eq!(error.position(), 5);
}

#[test]
fn malformed_mapping_is_reported_at_its_start() {
    let error = parse(lex("x + in x <- source")).err().unwrap();
    assert_eq!(
        error,
        SyntaxError::UnexpectedToken { expected: Expected::Mapping, found: ident("x"), position: 0 }
    );
}

#[test]
fn missing_in_shows_the_token_found() {
    let error = parse(lex("x of x <- source")).err().unwrap();
    assert_eq!(
        error,
        SyntaxError::UnexpectedToken { expected: Expected::In, found: ident("of"), position: 1 }
    );
}

#[test]
fn raw_identifier_is_not_the_keyword() {
    let error = parse(lex("x r#in x <- source")).err().unwrap();
    assert_eq!(
        error,
        SyntaxError::UnexpectedToken { expected: Expected::In, found: ident("r#in"), position: 1 }
    );
}

#[test]
fn missing_pattern_shows_the_token_found() {
    let error = parse(lex("x in <- source")).err().unwrap();
    assert_eq!(
        error,
        SyntaxError::UnexpectedToken {
            expected: Expected::Pattern,
            found: Token::Punct('<', Spacing::Joint),
            position: 2,
        }
    );
}

#[test]
fn group_in_place_of_the_arrow() {
    let error = parse(lex("x in x [0] <- source")).err().unwrap();
    assert_eq!(
        error,
        SyntaxError::UnexpectedToken { expected: Expected::Arrow, found: Token::Group, position: 3 }
    );
}

#[test]
fn literal_in_place_of_the_arrow() {
    let error = parse(lex("x in x 7 source")).err().unwrap();
    assert_eq!(
        error,
        SyntaxError::UnexpectedToken {
            expected: Expected::Arrow,
            found: Token::Literal("7".to_string()),
            position: 3,
        }
    );
}

#[test]
fn missing_iterable_shows_the_token_found() {
    let error = parse(lex("x in x <- , x > 1")).err().unwrap();
    assert_eq!(
        error,
        SyntaxError::UnexpectedToken {
            expected: Expected::Iterable,
            found: Token::Punct(',', Spacing::Alone),
            position: 5,
        }
    );
}

#[test]
fn trailing_separator_is_left_over() {
    let error = parse(lex("x in x <- source,")).err().unwrap();
    assert_eq!(error, SyntaxError::TrailingInput { position: 6 });
}

#[test]
fn malformed_condition_is_left_over_with_its_separator() {
    let error = parse(lex("x in x <- source, x > 0, < 3")).err().unwrap();
    assert_eq!(error, SyntaxError::TrailingInput { position: 10 });
}

#[test]
fn arrow_needs_no_space_around_it() {
    let comprehension = parse(lex("x in x<-source")).unwrap();
    assert_eq!(comprehension.binding.iterable.to_string(), shown("source"));
}

#[test]
fn many_conditions_keep_their_order() {
    let comprehension =
        parse(lex("(a, b) in (a, b) <- zip(xs, ys), a < b, a % 2 == 0, f(a, b), !done")).unwrap();
    let conditions: Vec<String> =
        comprehension.conditions.iter().map(|condition| condition.0.to_string()).collect();
    assert_eq!(conditions, vec![shown("a < b"), shown("a % 2 == 0"), shown("f(a, b)"), shown("!done")]);
    assert_eq!(comprehension.mapping.0.to_string(), shown("(a, b)"));
    assert_eq!(comprehension.binding.iterable.to_string(), shown("zip(xs, ys)"));
}

#[test]
fn commas_inside_an_expression_separate_nothing() {
    let comprehension =
        parse(lex("m in m <- maps, m == HashMap::<u8, u8>::new(), |a, b| a < b")).unwrap();
    assert_eq!(comprehension.conditions.len(), 2);
    assert_eq!(comprehension.conditions[0].0.to_string(), expression("m == HashMap::<u8, u8>::new()"));
    assert_eq!(comprehension.conditions[1].0.to_string(), expression("|a, b| a < b"));
}

#[test]
fn pattern_may_not_alternate_at_the_top() {
    let error = parse(lex("x in Some(x) | None <- source")).err().unwrap();
    assert_eq!(
        error,
        SyntaxError::UnexpectedToken {
            expected: Expected::Arrow,
            found: Token::Punct('|', Spacing::Alone),
            position: 4,
        }
    );
}

#[test]
fn cursor_starts_at_zero_and_knows_its_end() {
    let cursor = Cursor::new(lex("a b"));
    assert_eq!(cursor.offset(), 0);
    assert!(!cursor.is_empty());
    assert!(Cursor::new(lex("")).is_empty());
}

#[test]
fn cursor_steps_over_the_fixed_tokens() {
    let mut cursor = Cursor::new(lex("in <- , rest"));
    assert_eq!(cursor.keyword_in(), Ok(()));
    assert_eq!(cursor.offset(), 1);
    assert_eq!(cursor.arrow(), Ok(()));
    assert_eq!(cursor.offset(), 3);
    assert_eq!(cursor.comma(), Ok(()));
    assert_eq!(cursor.offset(), 4);
    assert_eq!(cursor.end(), Err(SyntaxError::TrailingInput { position: 4 }));
    assert_eq!(
        cursor.comma(),
        Err(SyntaxError::UnexpectedToken { expected: Expected::Comma, found: ident("rest"), position: 4 })
    );
    assert_eq!(cursor.offset(), 4);
    cursor.reset(1);
    assert_eq!(cursor.offset(), 1);
    assert_eq!(
        cursor.keyword_in(),
        Err(SyntaxError::UnexpectedToken {
            expected: Expected::In,
            found: Token::Punct('<', Spacing::Joint),
            position: 1,
        })
    );
}

#[test]
fn cursor_reads_expressions_and_patterns() {
    let mut cursor = Cursor::new(lex("a + 1 (b, c) d"));
    let expression = cursor.expression(Expected::Mapping).unwrap();
    assert_eq!(expression.to_string(), shown("a + 1 (b, c)"));
    assert_eq!(cursor.offset(), 4);
    let pattern = cursor.pattern().unwrap();
    assert_eq!(pattern.to_string(), shown("d"));
    assert_eq!(cursor.end(), Ok(()));
    assert_eq!(
        cursor.pattern().err(),
        Some(SyntaxError::UnexpectedEnd { expected: Expected::Pattern, position: 5 })
    );
}

#[test]
fn accept_moves_to_where_the_read_ended() {
    let mut cursor = Cursor::new(lex("a b c d"));
    let read = cursor.accept(Some((lex("a b"), 2)), Expected::Mapping).unwrap();
    assert_eq!(read.to_string(), shown("a b"));
    assert_eq!(cursor.offset(), 2);
    let read = cursor.accept(Some((lex("c d"), 0)), Expected::Iterable).unwrap();
    assert_eq!(read.to_string(), shown("c d"));
    assert_eq!(cursor.offset(), 4);
}

#[test]
fn accept_refuses_a_read_that_took_nothing() {
    let mut cursor = Cursor::new(lex("a b c d"));
    cursor.accept(Some((lex("a"), 3)), Expected::Mapping).unwrap();
    let error = cursor.accept(Some((TokenStream::new(), 3)), Expected::Pattern).err().unwrap();
    assert_eq!(
        error,
        SyntaxError::UnexpectedToken { expected: Expected::Pattern, found: ident("b"), position: 1 }
    );
    assert_eq!(cursor.offset(), 1);
}

#[test]
fn accept_refuses_a_read_that_left_more_than_there_was() {
    let mut cursor = Cursor::new(lex("a b"));
    let error = cursor.accept(Some((lex("a"), 7)), Expected::Mapping).err().unwrap();
    assert_eq!(
        error,
        SyntaxError::UnexpectedToken { expected: Expected::Mapping, found: ident("a"), position: 0 }
    );
    assert_eq!(cursor.offset(), 0);
}

#[test]
fn accept_reports_a_failed_read() {
    let mut cursor = Cursor::new(lex("a"));
    cursor.accept(Some((lex("a"), 0)), Expected::Mapping).unwrap();
    let error = cursor.accept(None, Expected::Condition).err().unwrap();
    assert_eq!(error, SyntaxError::UnexpectedEnd { expected: Expected::Condition, position: 1 });
}

#[test]
fn nodes_parse_on_their_own() {
    let mut cursor = Cursor::new(lex("x + 1 in (a, b) <- pairs , a < b"));
    let mapping = Mapping::parse(&mut cursor).unwrap();
    assert_eq!(mapping.0.to_string(), shown("x + 1"));
    assert_eq!(cursor.keyword_in(), Ok(()));
    let pattern = Pattern::parse(&mut cursor).unwrap();
    assert_eq!(pattern.0.to_string(), shown("(a, b)"));
    assert_eq!(cursor.offset(), 5);
    cursor.reset(4);
    let binding = Binding::parse(&mut cursor).unwrap();
    assert_eq!(binding.pattern.0.to_string(), shown("(a, b)"));
    assert_eq!(binding.iterable.to_string(), shown("pairs"));
    assert_eq!(cursor.offset(), 8);
    let condition = Condition::parse(&mut cursor).unwrap();
    assert_eq!(condition.0.to_string(), shown("a < b"));
    assert!(cursor.is_empty());
}

#[test]
fn failed_read_takes_nothing() {
    let mut cursor = Cursor::new(lex("x in p <- , +"));
    assert!(Comprehension::parse(&mut cursor).is_err());
    assert_eq!(cursor.offset(), 0);
    cursor.accept(Some((lex("x in"), 5)), Expected::Mapping).unwrap();
    assert_eq!(
        Binding::parse(&mut cursor).err(),
        Some(SyntaxError::UnexpectedToken {
            expected: Expected::Iterable,
            found: Token::Punct(',', Spacing::Alone),
            position: 5,
        })
    );
    assert_eq!(cursor.offset(), 2);
    cursor.accept(Some((lex("p <-"), 2)), Expected::Pattern).unwrap();
    assert_eq!(
        Condition::parse(&mut cursor).err(),
        Some(SyntaxError::UnexpectedToken {
            expected: Expected::Condition,
            found: Token::Punct('+', Spacing::Alone),
            position: 6,
        })
    );
    assert_eq!(cursor.offset(), 5);
}

#[test]
fn condition_needs_its_separator() {
    let mut cursor = Cursor::new(lex("a < b"));
    assert_eq!(
        Condition::parse(&mut cursor).err(),
        Some(SyntaxError::UnexpectedToken { expected: Expected::Comma, found: ident("a"), position: 0 })
    );
    let mut cursor = Cursor::new(lex(","));
    assert_eq!(
        Condition::parse(&mut cursor).err(),
        Some(SyntaxError::UnexpectedEnd { expected: Expected::Condition, position: 1 })
    );
    assert_eq!(cursor.offset(), 0);
}

#[test]
fn repetition_stops_at_the_first_failure() {
    let mut cursor = Cursor::new(lex(", a , b + 1 , , c"));
    let conditions: Vec<Condition> = parse_zero_or_more(&mut cursor);
    assert_eq!(conditions.len(), 2);
    assert_eq!(conditions[0].0.to_string(), shown("a"));
    assert_eq!(conditions[1].0.to_string(), shown("b + 1"));
    assert_eq!(cursor.offset(), 6);
    let none: Vec<Condition> = parse_zero_or_more(&mut cursor);
    assert!(none.is_empty());
    assert_eq!(cursor.offset(), 6);
}

#[test]
fn arrow_inside_an_expression_is_a_comparison() {
    let mut cursor = Cursor::new(lex("a <- b"));
    let mapping = Mapping::parse(&mut cursor).unwrap();
    assert_eq!(mapping.0.to_string(), expression("a < -b"));
    assert!(cursor.is_empty());
}

#[test]
fn repetition_of_other_nodes() {
    let mut cursor = Cursor::new(lex("a (b, c) _ 1"));
    let patterns: Vec<Pattern> = parse_zero_or_more(&mut cursor);
    let shown_patterns: Vec<String> = patterns.iter().map(|pattern| pattern.0.to_string()).collect();
    assert_eq!(shown_patterns, vec![shown("a (b, c)"), shown("_"), shown("1")]);
    assert!(cursor.is_empty());
}

#[test]
fn invisible_group_is_one_expression() {
    let group = proc_macro2::Group::new(proc_macro2::Delimiter::None, lex("a + b"));
    let mut input = TokenStream::new();
    input.extend([proc_macro2::TokenTree::Group(group)]);
    input.extend(lex("in x <- source"));
    let comprehension = parse(input).unwrap();
    let mapping: Vec<proc_macro2::TokenTree> = comprehension.mapping.0.into_iter().collect();
    assert_eq!(mapping.len(), 1);
    assert_eq!(comprehension.binding.iterable.to_string(), shown("source"));
}

#[test]
fn read_that_stops_inside_an_invisible_group_is_refused() {
    let group = proc_macro2::Group::new(proc_macro2::Delimiter::None, lex("a b c d"));
    let mut input = TokenStream::new();
    input.extend([proc_macro2::TokenTree::Group(group)]);
    let mut cursor = Cursor::new(input);
    assert_eq!(
        cursor.pattern().err(),
        Some(SyntaxError::UnexpectedToken { expected: Expected::Pattern, found: Token::Group, position: 0 })
    );
    assert_eq!(
        cursor.expression(Expected::Mapping).err(),
        Some(SyntaxError::UnexpectedToken { expected: Expected::Mapping, found: Token::Group, position: 0 })
    );
    assert_eq!(cursor.offset(), 0);
}
