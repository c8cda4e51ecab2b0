use command_bridge::sig::GenError;
use command_bridge::sig::parse_fn;
use command_bridge::sig::reassemble_signature;
use command_bridge::token::Delim;
use command_bridge::token::Tok;

fn id(s: &str) -> Tok {
    Tok::Ident(s.to_string())
}

fn p(c: char) -> Tok {
    Tok::Punct(c)
}

fn group(d: Delim, toks: Vec<Tok>) -> Tok {
    Tok::Group(d, toks)
}

/// `pub async fn fetch_user(id: u32) -> User;`
fn fetch_user_decl() -> Vec<Tok> {
    vec![
        id("pub"),
        id("async"),
        id("fn"),
        id("fetch_user"),
        group(Delim::Paren, vec![id("id"), p(':'), id("u32")]),
        p('-'),
        p('>'),
        id("User"),
        p(';'),
    ]
}

#[test]
fn parse_recovers_every_piece() {
    let sig = parse_fn(&fetch_user_decl()).unwrap();
    assert_eq!(sig.leading_modifiers, vec![id("pub"), id("async"), id("fn")]);
    assert_eq!(sig.name, "fetch_user");
    assert_eq!(sig.param_delim, Delim::Paren);
    assert_eq!(sig.params.len(), 1);
    assert_eq!(sig.params[0].name, "id");
    assert_eq!(sig.params[0].ty, vec![id("u32")]);
    assert_eq!(sig.return_clause, vec![p('-'), p('>'), id("User")]);
    assert_eq!(sig.trailing, vec![p(';')]);
}

#[test]
fn partition_invariant_reassembles_the_input() {
    let input = fetch_user_decl();
    let sig = parse_fn(&input).unwrap();
    assert_eq!(reassemble_signature(&sig), input);
}

#[test]
fn partition_invariant_with_body() {
    let input = vec![
        id("fn"),
        id("add"),
        group(
            Delim::Paren,
            vec![id("a"), p(':'), id("i32"), p(','), id("b"), p(':'), id("i32")],
        ),
        p('-'),
        p('>'),
        id("i32"),
        group(Delim::Brace, vec![id("a"), p('+'), id("b")]),
    ];
    let sig = parse_fn(&input).unwrap();
    assert_eq!(sig.params.len(), 2);
    assert_eq!(sig.params[0].name, "a");
    assert_eq!(sig.params[1].name, "b");
    assert_eq!(reassemble_signature(&sig), input);
}

#[test]
fn missing_fn_keyword_is_rejected() {
    let input = vec![id("pub"), id("struct"), id("Foo")];
    assert_eq!(parse_fn(&input), Err(GenError::FnKeywordNotFound));
}

#[test]
fn fn_keyword_without_name_is_rejected() {
    let input = vec![id("fn")];
    assert_eq!(parse_fn(&input), Err(GenError::FnKeywordNotFound));
}

#[test]
fn name_that_is_not_an_identifier_is_rejected() {
    let input = vec![id("fn"), p('!'), group(Delim::Paren, vec![])];
    assert_eq!(parse_fn(&input), Err(GenError::FnKeywordNotFound));
}

#[test]
fn missing_parameter_group_is_rejected() {
    let input = vec![id("fn"), id("f"), id("x")];
    assert_eq!(parse_fn(&input), Err(GenError::ParamGroupMissing));
    let input = vec![id("fn"), id("f")];
    assert_eq!(parse_fn(&input), Err(GenError::ParamGroupMissing));
}

#[test]
fn empty_parameter_list_is_malformed() {
    let input = vec![id("fn"), id("f"), group(Delim::Paren, vec![]), p(';')];
    assert_eq!(parse_fn(&input), Err(GenError::MalformedParam));
}

#[test]
fn parameter_without_colon_is_malformed() {
    let input = vec![
        id("fn"),
        id("f"),
        group(Delim::Paren, vec![id("x"), id("u32")]),
        p(';'),
    ];
    assert_eq!(parse_fn(&input), Err(GenError::MalformedParam));
}

/// The comma splitter works at the top level only: it does not track angle
/// brackets, so the comma inside `Map<String, i32>` cuts the parameter in
/// two, and the spurious second segment `i32 >` has no colon.  This is the
/// accepted boundary condition of the naive splitter, pinned here as it
/// behaves today.
#[test]
fn top_level_comma_in_generic_type_missplits() {
    let input = vec![
        id("fn"),
        id("f"),
        group(
            Delim::Paren,
            vec![
                id("x"),
                p(':'),
                id("Map"),
                p('<'),
                id("String"),
                p(','),
                id("i32"),
                p('>'),
            ],
        ),
        p(';'),
    ];
    assert_eq!(parse_fn(&input), Err(GenError::MalformedParam));
}

/// A comma nested inside a bracketed group is invisible to the top-level
/// splitter: the whole group stays inside one parameter's type.
#[test]
fn comma_nested_in_group_is_not_split() {
    let tuple_ty = group(Delim::Paren, vec![id("String"), p(','), id("i32")]);
    let input = vec![
        id("fn"),
        id("f"),
        group(Delim::Paren, vec![id("x"), p(':'), tuple_ty.clone()]),
        p(';'),
    ];
    let sig = parse_fn(&input).unwrap();
    assert_eq!(sig.params.len(), 1);
    assert_eq!(sig.params[0].name, "x");
    assert_eq!(sig.params[0].ty, vec![tuple_ty]);
}

#[test]
fn error_descriptions() {
    assert_eq!(
        GenError::MissingNameArgument.describe(),
        "must supply the argument: name"
    );
    assert_eq!(GenError::FnKeywordNotFound.describe(), "failed to find pred");
    assert_eq!(GenError::ParamGroupMissing.describe(), "couldn't find group");
    assert_eq!(
        GenError::MalformedParam.describe(),
        "malformed parameter segment"
    );
}
