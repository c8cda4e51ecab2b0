use command_bridge::bind_command;
use command_bridge::command;
use command_bridge::gen::GenerationMode;
use command_bridge::gen::generate;
use command_bridge::gen::has_modifier;
use command_bridge::sig::GenError;
use command_bridge::sig::parse_fn;
use command_bridge::token::Delim;
use command_bridge::token::Tok;

fn id(s: &str) -> Tok {
    Tok::Ident(s.to_string())
}

fn p(c: char) -> Tok {
    Tok::Punct(c)
}

fn lit(s: &str) -> Tok {
    Tok::Lit(s.to_string())
}

fn group(d: Delim, toks: Vec<Tok>) -> Tok {
    Tok::Group(d, toks)
}

/// The attribute that binds a declaration to its inline snippet.
fn inline_attr(snippet: &str) -> Vec<Tok> {
    vec![
        p('#'),
        group(
            Delim::Bracket,
            vec![
                id("wasm_bindgen"),
                group(Delim::Paren, vec![id("inline_js"), p('='), lit(snippet)]),
            ],
        ),
    ]
}

/// `serialize(<name>).expect("failed to serialize parameter")` behind its
/// transport-string conversion.
fn ser_arg(name: &str) -> Vec<Tok> {
    vec![
        id("to_transport"),
        group(
            Delim::Paren,
            vec![
                id("serialize"),
                group(Delim::Paren, vec![id(name)]),
                p('.'),
                id("expect"),
                group(Delim::Paren, vec![lit("failed to serialize parameter")]),
            ],
        ),
    ]
}

/// `deserialize(from_transport(<name>)).expect("failed to deserialize parameter")`
fn deser_arg(name: &str) -> Vec<Tok> {
    vec![
        id("deserialize"),
        group(
            Delim::Paren,
            vec![id("from_transport"), group(Delim::Paren, vec![id(name)])],
        ),
        p('.'),
        id("expect"),
        group(Delim::Paren, vec![lit("failed to deserialize parameter")]),
    ]
}

/// Mode A scenario: `async fn fetch_user(id: u32) -> User;` with the
/// command name `fetch_user` yields one import declaration, bound to the
/// exact forwarding snippet.
#[test]
fn stub_only_scenario() {
    let input = vec![
        id("async"),
        id("fn"),
        id("fetch_user"),
        group(Delim::Paren, vec![id("id"), p(':'), id("u32")]),
        p('-'),
        p('>'),
        id("User"),
        p(';'),
    ];
    let sig = parse_fn(&input).unwrap();
    let decls = generate(&sig, &"fetch_user".to_string(), GenerationMode::StubOnly);
    assert_eq!(decls.len(), 1);
    let mut expected = inline_attr(
        "export async function fetch_user(id) { return await invoke(\"fetch_user\", {id}); }",
    );
    expected.extend(vec![
        id("async"),
        id("fn"),
        id("fetch_user"),
        group(Delim::Paren, vec![id("id"), p(':'), id("u32")]),
        p('-'),
        p('>'),
        id("User"),
        p(';'),
    ]);
    assert_eq!(decls[0], expected);
}

/// Without an asynchrony modifier the snippet omits `async` and `await`.
#[test]
fn stub_only_synchronous_snippet() {
    let input = vec![
        id("fn"),
        id("ping"),
        group(Delim::Paren, vec![id("n"), p(':'), id("u8")]),
        p(';'),
    ];
    let sig = parse_fn(&input).unwrap();
    let decls = generate(&sig, &"ping".to_string(), GenerationMode::StubOnly);
    match &decls[0][1] {
        Tok::Group(Delim::Bracket, attr) => match &attr[1] {
            Tok::Group(Delim::Paren, kv) => {
                assert_eq!(
                    kv[2],
                    lit("export function ping(n) { return invoke(\"ping\", {n}); }")
                );
            }
            other => panic!("unexpected attribute shape: {:?}", other),
        },
        other => panic!("unexpected attribute shape: {:?}", other),
    }
}

/// Mode B scenario: `fn add(a: i32, b: i32) -> i32 { ... }` with
/// `name = "add"` yields the private all-strings stub `__add` returning a
/// byte buffer, and the public wrapper `add` with the original signature
/// whose body marshals both arguments in order.
#[test]
fn marshalled_wrapper_scenario() {
    let args = vec![id("name"), p('='), lit("add")];
    let input = vec![
        id("fn"),
        id("add"),
        group(
            Delim::Paren,
            vec![id("a"), p(':'), id("i32"), p(','), id("b"), p(':'), id("i32")],
        ),
        p('-'),
        p('>'),
        id("i32"),
        group(Delim::Brace, vec![id("todo")]),
    ];
    let decls = bind_command(&args, &input).unwrap();
    assert_eq!(decls.len(), 2);

    let mut stub = inline_attr(
        "export async function __add(a,b) { return await window.__TAURI_INVOKE__('add', { a,b }); }",
    );
    stub.extend(vec![
        id("fn"),
        id("__add"),
        group(
            Delim::Paren,
            vec![
                id("a"),
                p(':'),
                id("String"),
                p(','),
                id("b"),
                p(':'),
                id("String"),
            ],
        ),
        p('-'),
        p('>'),
        id("Bytes"),
        p(';'),
    ]);
    assert_eq!(decls[0], stub);

    let mut call_args = ser_arg("a");
    call_args.push(p(','));
    call_args.extend(ser_arg("b"));
    let body = vec![
        id("deserialize"),
        group(
            Delim::Paren,
            vec![
                id("from_transport"),
                group(
                    Delim::Paren,
                    vec![id("__add"), group(Delim::Paren, call_args)],
                ),
            ],
        ),
        p('.'),
        id("expect"),
        group(Delim::Paren, vec![lit("failed to deserialize payload")]),
    ];
    let wrapper = vec![
        id("fn"),
        id("add"),
        group(
            Delim::Paren,
            vec![id("a"), p(':'), id("i32"), p(','), id("b"), p(':'), id("i32")],
        ),
        p('-'),
        p('>'),
        id("i32"),
        group(Delim::Brace, body),
    ];
    assert_eq!(decls[1], wrapper);
}

/// An asynchronous original makes the wrapper await the stub call.
#[test]
fn marshalled_wrapper_awaits_when_async() {
    let args = vec![id("name"), p('='), lit("fetch")];
    let input = vec![
        id("async"),
        id("fn"),
        id("fetch"),
        group(Delim::Paren, vec![id("q"), p(':'), id("Query")]),
        p('-'),
        p('>'),
        id("Reply"),
        p(';'),
    ];
    let decls = bind_command(&args, &input).unwrap();
    let wrapper = &decls[1];
    let body = match wrapper.last().unwrap() {
        Tok::Group(Delim::Brace, b) => b,
        other => panic!("wrapper has no body: {:?}", other),
    };
    let call = match &body[1] {
        Tok::Group(Delim::Paren, ft) => match &ft[1] {
            Tok::Group(Delim::Paren, call) => call,
            other => panic!("unexpected call shape: {:?}", other),
        },
        other => panic!("unexpected body shape: {:?}", other),
    };
    assert_eq!(call[call.len() - 2], p('.'));
    assert_eq!(call[call.len() - 1], id("await"));
}

/// Mode C scenario: the original is renamed behind the internal prefix and
/// kept verbatim, and the public name becomes a registered handler taking
/// transport strings and returning a byte buffer.
#[test]
fn host_command_scenario() {
    let body_toks = vec![id("greet"), group(Delim::Paren, vec![id("name")])];
    let input = vec![
        id("fn"),
        id("hello"),
        group(Delim::Paren, vec![id("name"), p(':'), id("String")]),
        p('-'),
        p('>'),
        id("String"),
        group(Delim::Brace, body_toks.clone()),
    ];
    let decls = command(&Vec::new(), &input).unwrap();
    assert_eq!(decls.len(), 2);

    let renamed = vec![
        id("fn"),
        id("__hello"),
        group(Delim::Paren, vec![id("name"), p(':'), id("String")]),
        p('-'),
        p('>'),
        id("String"),
        group(Delim::Brace, body_toks),
    ];
    assert_eq!(decls[0], renamed);

    let handler_body = vec![
        id("serialize"),
        group(
            Delim::Paren,
            vec![id("__hello"), group(Delim::Paren, deser_arg("name"))],
        ),
        p('.'),
        id("expect"),
        group(Delim::Paren, vec![lit("failed to serialize")]),
    ];
    let handler = vec![
        p('#'),
        group(Delim::Bracket, vec![id("host_command")]),
        id("fn"),
        id("hello"),
        group(Delim::Paren, vec![id("name"), p(':'), id("String")]),
        p('-'),
        p('>'),
        id("Bytes"),
        group(Delim::Brace, handler_body),
    ];
    assert_eq!(decls[1], handler);
}

/// Missing `name` aborts before the declaration is looked at — even a
/// malformed declaration reports the configuration error.
#[test]
fn missing_name_aborts_before_parsing() {
    let args = vec![id("label"), p('='), lit("add")];
    let good = vec![
        id("fn"),
        id("f"),
        group(Delim::Paren, vec![id("a"), p(':'), id("u8")]),
        p(';'),
    ];
    assert_eq!(bind_command(&args, &good), Err(GenError::MissingNameArgument));
    let malformed = vec![id("nonsense")];
    assert_eq!(
        bind_command(&args, &malformed),
        Err(GenError::MissingNameArgument)
    );
    assert_eq!(
        bind_command(&Vec::new(), &good),
        Err(GenError::MissingNameArgument)
    );
}

/// A mis-shapen segment is skipped, never an error; the first recognized
/// `name = value` pair wins.
#[test]
fn attribute_arguments_are_skipped_not_rejected() {
    let args = vec![
        id("name"),
        p('='),
        id("first"),
        p('='),
        id("extra"),
        p(','),
        id("name"),
        p('='),
        id("second"),
    ];
    let input = vec![
        id("fn"),
        id("f"),
        group(Delim::Paren, vec![id("a"), p(':'), id("u8")]),
        p(';'),
    ];
    let decls = bind_command(&args, &input).unwrap();
    match &decls[0][1] {
        Tok::Group(Delim::Bracket, attr) => match &attr[1] {
            Tok::Group(Delim::Paren, kv) => match &kv[2] {
                Tok::Lit(snippet) => {
                    assert!(snippet.contains("__TAURI_INVOKE__('second'"));
                    assert!(!snippet.contains("first"));
                }
                other => panic!("unexpected value: {:?}", other),
            },
            other => panic!("unexpected attribute shape: {:?}", other),
        },
        other => panic!("unexpected attribute shape: {:?}", other),
    }
}

/// The command name is the invocation key, and nothing else is.
#[test]
fn command_name_propagation() {
    let args = vec![id("name"), p('='), lit("tally")];
    let input = vec![
        id("fn"),
        id("count"),
        group(Delim::Paren, vec![id("a"), p(':'), id("u8")]),
        p(';'),
    ];
    let decls = bind_command(&args, &input).unwrap();
    match &decls[0][1] {
        Tok::Group(Delim::Bracket, attr) => match &attr[1] {
            Tok::Group(Delim::Paren, kv) => match &kv[2] {
                Tok::Lit(snippet) => {
                    assert_eq!(
                        snippet.matches("__TAURI_INVOKE__('tally'").count(),
                        1
                    );
                    assert_eq!(
                        snippet.as_str(),
                        "export async function __tally(a) { return await window.__TAURI_INVOKE__('tally', { a }); }"
                    );
                }
                other => panic!("unexpected value: {:?}", other),
            },
            other => panic!("unexpected attribute shape: {:?}", other),
        },
        other => panic!("unexpected attribute shape: {:?}", other),
    }
}

/// Parameter order is preserved: both generated argument lists carry the
/// three names in source order.
#[test]
fn parameter_order_preserved() {
    let args = vec![id("name"), p('='), lit("mix")];
    let input = vec![
        id("fn"),
        id("mix"),
        group(
            Delim::Paren,
            vec![
                id("red"),
                p(':'),
                id("u8"),
                p(','),
                id("green"),
                p(':'),
                id("u8"),
                p(','),
                id("blue"),
                p(':'),
                id("u8"),
            ],
        ),
        p('-'),
        p('>'),
        id("Color"),
        p(';'),
    ];
    let decls = bind_command(&args, &input).unwrap();
    let stub_params = match &decls[0][4] {
        Tok::Group(Delim::Paren, inner) => inner,
        other => panic!("no stub parameter group: {:?}", other),
    };
    let stub_names: Vec<&Tok> = stub_params
        .split(|t| *t == p(','))
        .map(|seg| &seg[0])
        .collect();
    assert_eq!(stub_names, vec![&id("red"), &id("green"), &id("blue")]);
    let wrapper_params = match &decls[1][2] {
        Tok::Group(Delim::Paren, inner) => inner,
        other => panic!("no wrapper parameter group: {:?}", other),
    };
    let wrapper_names: Vec<&Tok> = wrapper_params
        .split(|t| *t == p(','))
        .map(|seg| &seg[0])
        .collect();
    assert_eq!(wrapper_names, vec![&id("red"), &id("green"), &id("blue")]);
}

/// The generated wrapper declarations mirror the original's modifiers.
#[test]
fn modifiers_are_mirrored() {
    let args = vec![id("name"), p('='), lit("f")];
    let input = vec![
        id("pub"),
        id("async"),
        id("fn"),
        id("f"),
        group(Delim::Paren, vec![id("a"), p(':'), id("u8")]),
        p(';'),
    ];
    let decls = bind_command(&args, &input).unwrap();
    assert_eq!(decls[0][2..5], [id("pub"), id("async"), id("fn")]);
    assert_eq!(decls[1][0..3], [id("pub"), id("async"), id("fn")]);
    let sig = parse_fn(&input).unwrap();
    assert!(has_modifier(&sig, "pub"));
    assert!(has_modifier(&sig, "async"));
    assert!(!has_modifier(&sig, "const"));
}

/// The mode-dispatching entry point emits exactly what the per-mode entry
/// points emit.
#[test]
fn generate_dispatches_by_mode() {
    let input = vec![
        id("fn"),
        id("f"),
        group(Delim::Paren, vec![id("a"), p(':'), id("u8")]),
        p(';'),
    ];
    let sig = parse_fn(&input).unwrap();
    let cmd = "f".to_string();
    assert_eq!(
        generate(&sig, &cmd, GenerationMode::StubOnly).len(),
        1
    );
    let args = vec![id("name"), p('='), id("f")];
    assert_eq!(
        generate(&sig, &cmd, GenerationMode::MarshalledWrapper),
        bind_command(&args, &input).unwrap()
    );
    assert_eq!(
        generate(&sig, &cmd, GenerationMode::HostCommand),
        command(&Vec::new(), &input).unwrap()
    );
}

#[test]
fn cloned_tokens_are_equal() {
    let t = group(
        Delim::Paren,
        vec![id("a"), p(':'), group(Delim::Bracket, vec![lit("x")])],
    );
    assert_eq!(t.clone(), t);
}
