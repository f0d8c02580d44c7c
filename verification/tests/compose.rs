use compose_macro::compose;
use compose_macro::emitter::render;
use compose_macro::emitter::Generated;
use compose_macro::grammar::Composed;
use compose_macro::grammar::Token;

fn ident(name: &str) -> Token {
    Token::Ident { name: String::from(name) }
}

fn h(x: i32) -> i32 {
    x * 2
}

fn g(x: i32) -> i32 {
    x * 3
}

fn k(x: i32) -> i32 {
    x * 4
}

fn inc(x: i32) -> i32 {
    x + 1
}

fn dbl(x: i32) -> i32 {
    x * 2
}

/// Apply the named functions to `x` in the order the parser reports them.
fn apply_chain(names: &[String], x: i32) -> i32 {
    let mut acc = x;
    for name in names {
        acc = match name.as_str() {
            "h" => h(acc),
            "g" => g(acc),
            "k" => k(acc),
            "inc" => inc(acc),
            "dbl" => dbl(acc),
            other => panic!("unknown name {}", other),
        };
    }
    acc
}

fn parsed_names(c: &Composed) -> Vec<String> {
    let mut names = vec![c.function.clone()];
    names.extend(c.others.iter().cloned());
    names
}

#[test]
fn it_works() {
    // Compose the functions: h -> g -> k.
    let tokens = vec![ident("h"), Token::Arrow, ident("g"), Token::Arrow, ident("k")];
    let text = compose(&tokens).unwrap();
    assert_eq!(text, "|x| k(g(h(x)))");

    // Apply the composed function to the input `2`.
    let composed = Composed::parse(&tokens).unwrap();
    let result = apply_chain(&parsed_names(&composed), 2);
    assert_eq!(result, 48); // 2 * 2 * 3 * 4
}

#[test]
fn parse_three_names_in_order() {
    let tokens = vec![ident("h"), Token::Arrow, ident("g"), Token::Arrow, ident("k")];
    let composed = Composed::parse(&tokens).unwrap();
    assert_eq!(composed.function, "h");
    assert_eq!(composed.others, vec![String::from("g"), String::from("k")]);
}

#[test]
fn application_follows_textual_order() {
    // inc then dbl distinguishes the orders: dbl(inc(3)) = 8, inc(dbl(3)) = 7.
    let tokens = vec![ident("inc"), Token::Arrow, ident("dbl")];
    let composed = Composed::parse(&tokens).unwrap();
    let result = apply_chain(&parsed_names(&composed), 3);
    assert_eq!(result, 8);
    assert_eq!(compose(&tokens).unwrap(), "|x| dbl(inc(x))");
}

#[test]
fn single_name_is_bare() {
    let tokens = vec![ident("h")];
    let text = compose(&tokens).unwrap();
    assert_eq!(text, "h");

    let composed = Composed::parse(&tokens).unwrap();
    let generated = composed.emit();
    assert!(matches!(generated, Generated::Bare { .. }));
    assert_eq!(render(&generated), "h");
}

#[test]
fn empty_input_is_error() {
    let tokens: Vec<Token> = vec![];
    assert!(compose(&tokens).is_err());
    assert!(Composed::parse(&tokens).is_err());
}

#[test]
fn trailing_arrow_is_error() {
    let tokens = vec![ident("h"), Token::Arrow];
    assert!(compose(&tokens).is_err());
}

#[test]
fn missing_name_between_arrows_is_error() {
    let tokens = vec![ident("h"), Token::Arrow, Token::Arrow, ident("g")];
    assert!(compose(&tokens).is_err());
}

#[test]
fn leading_arrow_is_error() {
    let tokens = vec![Token::Arrow, ident("h")];
    assert!(compose(&tokens).is_err());
}

#[test]
fn non_identifier_token_is_error() {
    let tokens = vec![ident("h"), Token::Arrow, Token::Other];
    assert!(compose(&tokens).is_err());
    let alone = vec![Token::Other];
    assert!(compose(&alone).is_err());
}

#[test]
fn leftover_tokens_are_error() {
    let tokens = vec![ident("h"), ident("g")];
    assert!(compose(&tokens).is_err());
}

#[test]
fn reparsing_yields_the_same_list() {
    let tokens = vec![ident("h"), Token::Arrow, ident("g"), Token::Arrow, ident("k")];
    let first = Composed::parse(&tokens).unwrap();
    let second = Composed::parse(&tokens).unwrap();
    assert_eq!(parsed_names(&first), parsed_names(&second));
}

#[test]
fn long_chain_nests_every_name() {
    let tokens = vec![
        ident("a1"),
        Token::Arrow,
        ident("b2"),
        Token::Arrow,
        ident("c3"),
        Token::Arrow,
        ident("d4"),
    ];
    let text = compose(&tokens).unwrap();
    assert_eq!(text, "|x| d4(c3(b2(a1(x))))");
}
