//! The binding generator.
//!
//! From a parsed signature and a declared command name, emit the
//! declarations implementing a marshalled remote call.  Three modes:
//!
//! - stub only: one import declaration with no body, bound by an inline
//!   script attribute to a forwarding snippet that calls the host runtime's
//!   `invoke` primitive under the command name;
//! - marshalled wrapper: a private stub whose parameters are all transport
//!   strings and whose result is a raw byte buffer, plus a public wrapper
//!   with the original signature whose body serializes each argument
//!   through the external codec, calls the stub, and deserializes the
//!   result;
//! - host command: the inverse direction — the original function renamed
//!   with an internal prefix, plus a handler registered as a host-invokable
//!   command that deserializes each transport-string argument, calls the
//!   renamed original, and serializes its result.
//!
//! The generator never fails: malformed signature data would propagate as
//! malformed output tokens for the downstream compiler to reject.

use vstd::prelude::*;

use crate::sig::Param;
use crate::sig::ParamModel;
use crate::sig::ParsedSignature;
use crate::sig::SigModel;
use crate::sig::params_view;
use crate::sig::render_param;
use crate::sig::render_params_exec;
use crate::sig::rendered_params;
use crate::token::Delim;
use crate::token::Tok;
use crate::token::TokModel;
use crate::token::lemma_toks_view;
use crate::token::toks_view;
use vstd::string::StringExecFns;

verus! {

broadcast use lemma_toks_view;

/// The models of a sequence of owned strings.
pub open spec fn strings_view(v: Seq<String>) -> Seq<Seq<char>> {
    Seq::new(v.len(), |i: int| v[i]@)
}

/// The models of a sequence of output declarations.
pub open spec fn decls_view(ds: Seq<Vec<Tok>>) -> Seq<Seq<TokModel>> {
    Seq::new(ds.len(), |i: int| toks_view(ds[i]@))
}

/// The parameter names, in declaration order.
pub open spec fn names_of(ps: Seq<ParamModel>) -> Seq<Seq<char>> {
    Seq::new(ps.len(), |i: int| ps[i].name)
}

/// Whether the leading modifiers contain the identifier `w`.
pub open spec fn sig_has_modifier(m: SigModel, w: Seq<char>) -> bool {
    exists|i: int| 0 <= i < m.leading.len() && m.leading[i] == TokModel::Ident(w)
}

/// Whether the declaration is asynchronous.
pub open spec fn sig_is_async(m: SigModel) -> bool {
    sig_has_modifier(m, "async"@)
}

/// The original name with the internal prefix.
pub open spec fn prefixed(name: Seq<char>) -> Seq<char> {
    "__"@ + name
}

/// The names joined with commas, as they appear inside a script snippet.
pub open spec fn join_names(names: Seq<Seq<char>>) -> Seq<char>
    decreases names.len(),
{
    if names.len() == 0 {
        Seq::empty()
    } else if names.len() == 1 {
        names[0]
    } else {
        names[0] + ","@ + join_names(names.drop_first())
    }
}

pub proof fn lemma_join_names_snoc(names: Seq<Seq<char>>, x: Seq<char>)
    ensures
        join_names(names.push(x)) == if names.len() == 0 {
            x
        } else {
            join_names(names) + ","@ + x
        },
    decreases names.len(),
{
    if names.len() > 0 {
        lemma_join_names_snoc(names.drop_first(), x);
        assert(names.push(x).drop_first() =~= names.drop_first().push(x));
        assert(join_names(names.push(x)) =~= join_names(names) + ","@ + x);
    }
}

/// The forwarding snippet of the stub-only mode: an exported script
/// function under the command name whose body forwards the named arguments
/// to the host runtime's `invoke` primitive, awaiting it when the
/// declaration is asynchronous.
pub open spec fn stub_snippet(cmd: Seq<char>, names: Seq<Seq<char>>, is_async: bool) -> Seq<
    char,
> {
    "export "@ + (if is_async {
        "async "@
    } else {
        Seq::empty()
    }) + "function "@ + cmd + "("@ + join_names(names) + ") { return "@ + (if is_async {
        "await "@
    } else {
        Seq::empty()
    }) + "invoke(\""@ + cmd + "\", {"@ + join_names(names) + "}); }"@
}

/// The forwarding snippet of the marshalled mode: always asynchronous, the
/// exported function carries the internal prefix, and the invocation key is
/// the bare command name.
pub open spec fn marshal_snippet(cmd: Seq<char>, names: Seq<Seq<char>>) -> Seq<char> {
    "export async function __"@ + cmd + "("@ + join_names(names)
        + ") { return await window.__TAURI_INVOKE__('"@ + cmd + "', { "@ + join_names(names)
        + " }); }"@
}

/// Comma-separated concatenation of token-sequence entries.
pub open spec fn interleave_commas(entries: Seq<Seq<TokModel>>) -> Seq<TokModel>
    decreases entries.len(),
{
    if entries.len() == 0 {
        Seq::empty()
    } else if entries.len() == 1 {
        entries[0]
    } else {
        entries[0] + seq![TokModel::Punct(',')] + interleave_commas(entries.drop_first())
    }
}

pub proof fn lemma_interleave_snoc(entries: Seq<Seq<TokModel>>, x: Seq<TokModel>)
    ensures
        interleave_commas(entries.push(x)) == if entries.len() == 0 {
            x
        } else {
            interleave_commas(entries) + seq![TokModel::Punct(',')] + x
        },
    decreases entries.len(),
{
    if entries.len() > 0 {
        lemma_interleave_snoc(entries.drop_first(), x);
        assert(entries.push(x).drop_first() =~= entries.drop_first().push(x));
        assert(interleave_commas(entries.push(x)) =~= interleave_commas(entries) + seq![
            TokModel::Punct(','),
        ] + x);
    }
}

/// One transport-string parameter of a generated stub or handler.
pub open spec fn string_param_entry(n: Seq<char>) -> Seq<TokModel> {
    seq![TokModel::Ident(n), TokModel::Punct(':'), TokModel::Ident("String"@)]
}

/// The parameter list of a generated stub or handler: every parameter
/// becomes a transport string, whatever its original type.
pub open spec fn string_params(names: Seq<Seq<char>>) -> Seq<TokModel> {
    interleave_commas(Seq::new(names.len(), |i: int| string_param_entry(names[i])))
}

/// One marshalled argument of the wrapper body: the original argument
/// serialized through the codec, unwrapped, and converted to its transport
/// string.
pub open spec fn ser_arg(n: Seq<char>) -> Seq<TokModel> {
    seq![
        TokModel::Ident("to_transport"@),
        TokModel::Group(
            Delim::Paren,
            seq![
                TokModel::Ident("serialize"@),
                TokModel::Group(Delim::Paren, seq![TokModel::Ident(n)]),
                TokModel::Punct('.'),
                TokModel::Ident("expect"@),
                TokModel::Group(
                    Delim::Paren,
                    seq![TokModel::Lit("failed to serialize parameter"@)],
                ),
            ],
        ),
    ]
}

/// The wrapper's marshalled arguments, in declaration order.
pub open spec fn ser_args(names: Seq<Seq<char>>) -> Seq<TokModel> {
    interleave_commas(Seq::new(names.len(), |i: int| ser_arg(names[i])))
}

/// One decoded argument of the host-command handler: the transport string
/// converted back to bytes and deserialized through the codec.
pub open spec fn deser_arg(n: Seq<char>) -> Seq<TokModel> {
    seq![
        TokModel::Ident("deserialize"@),
        TokModel::Group(
            Delim::Paren,
            seq![
                TokModel::Ident("from_transport"@),
                TokModel::Group(Delim::Paren, seq![TokModel::Ident(n)]),
            ],
        ),
        TokModel::Punct('.'),
        TokModel::Ident("expect"@),
        TokModel::Group(Delim::Paren, seq![TokModel::Lit("failed to deserialize parameter"@)]),
    ]
}

/// The handler's decoded arguments, in declaration order.
pub open spec fn deser_args(names: Seq<Seq<char>>) -> Seq<TokModel> {
    interleave_commas(Seq::new(names.len(), |i: int| deser_arg(names[i])))
}

/// The attribute binding a declaration to its inline script snippet.
pub open spec fn inline_attr(snippet: Seq<char>) -> Seq<TokModel> {
    seq![
        TokModel::Punct('#'),
        TokModel::Group(
            Delim::Bracket,
            seq![
                TokModel::Ident("wasm_bindgen"@),
                TokModel::Group(
                    Delim::Paren,
                    seq![
                        TokModel::Ident("inline_js"@),
                        TokModel::Punct('='),
                        TokModel::Lit(snippet),
                    ],
                ),
            ],
        ),
    ]
}

/// The wrapper body of the marshalled mode: serialize every argument, call
/// the private stub, await it when the original is asynchronous, convert
/// the returned buffer back, deserialize it, and unwrap or fail.
pub open spec fn marshal_body(m: SigModel) -> Seq<TokModel> {
    seq![
        TokModel::Ident("deserialize"@),
        TokModel::Group(
            Delim::Paren,
            seq![
                TokModel::Ident("from_transport"@),
                TokModel::Group(
                    Delim::Paren,
                    seq![
                        TokModel::Ident(prefixed(m.name)),
                        TokModel::Group(Delim::Paren, ser_args(names_of(m.params))),
                    ] + (if sig_is_async(m) {
                        seq![TokModel::Punct('.'), TokModel::Ident("await"@)]
                    } else {
                        Seq::empty()
                    }),
                ),
            ],
        ),
        TokModel::Punct('.'),
        TokModel::Ident("expect"@),
        TokModel::Group(Delim::Paren, seq![TokModel::Lit("failed to deserialize payload"@)]),
    ]
}

/// The handler body of the host-command mode: decode every argument, call
/// the renamed original, serialize its result, and unwrap or fail.
pub open spec fn host_body(m: SigModel) -> Seq<TokModel> {
    seq![
        TokModel::Ident("serialize"@),
        TokModel::Group(
            Delim::Paren,
            seq![
                TokModel::Ident(prefixed(m.name)),
                TokModel::Group(Delim::Paren, deser_args(names_of(m.params))),
            ],
        ),
        TokModel::Punct('.'),
        TokModel::Ident("expect"@),
        TokModel::Group(Delim::Paren, seq![TokModel::Lit("failed to serialize"@)]),
    ]
}

/// Stub-only mode: one import declaration mirroring the original's
/// modifiers, name, parameters and return clause, bound to its snippet.
pub open spec fn gen_stub_only(m: SigModel, cmd: Seq<char>) -> Seq<Seq<TokModel>> {
    seq![
        inline_attr(stub_snippet(cmd, names_of(m.params), sig_is_async(m))) + m.leading + seq![
            TokModel::Ident(m.name),
            TokModel::Group(m.param_delim, rendered_params(m.params)),
        ] + m.return_clause + seq![TokModel::Punct(';')],
    ]
}

/// Marshalled mode: the private all-strings stub and the public wrapper
/// with the original signature.
pub open spec fn gen_marshalled(m: SigModel, cmd: Seq<char>) -> Seq<Seq<TokModel>> {
    seq![
        inline_attr(marshal_snippet(cmd, names_of(m.params))) + m.leading + seq![
            TokModel::Ident(prefixed(m.name)),
            TokModel::Group(Delim::Paren, string_params(names_of(m.params))),
            TokModel::Punct('-'),
            TokModel::Punct('>'),
            TokModel::Ident("Bytes"@),
            TokModel::Punct(';'),
        ],
        m.leading + seq![
            TokModel::Ident(m.name),
            TokModel::Group(m.param_delim, rendered_params(m.params)),
        ] + m.return_clause + seq![TokModel::Group(Delim::Brace, marshal_body(m))],
    ]
}

/// Host-command mode: the original renamed with the internal prefix and
/// kept verbatim, and a handler under the public name registered as a
/// host-invokable command.
pub open spec fn gen_host_command(m: SigModel) -> Seq<Seq<TokModel>> {
    seq![
        m.leading + seq![
            TokModel::Ident(prefixed(m.name)),
            TokModel::Group(m.param_delim, rendered_params(m.params)),
        ] + m.return_clause + m.trailing,
        seq![
            TokModel::Punct('#'),
            TokModel::Group(Delim::Bracket, seq![TokModel::Ident("host_command"@)]),
            TokModel::Ident("fn"@),
            TokModel::Ident(m.name),
            TokModel::Group(Delim::Paren, string_params(names_of(m.params))),
            TokModel::Punct('-'),
            TokModel::Punct('>'),
            TokModel::Ident("Bytes"@),
            TokModel::Group(Delim::Brace, host_body(m)),
        ],
    ]
}

/// The three fixed generation strategies, chosen by the driver — never
/// inferred from the signature's types.
#[derive(Clone, Copy, Debug, PartialEq, Eq, Structural)]
pub enum GenerationMode {
    /// Emit only the import stub with its inline snippet.
    StubOnly,
    /// Emit the private marshalling stub and the public typed wrapper.
    MarshalledWrapper,
    /// Expose a native function to the host runtime.
    HostCommand,
}

/// What each mode emits.
pub open spec fn spec_generate(m: SigModel, cmd: Seq<char>, mode: GenerationMode) -> Seq<
    Seq<TokModel>,
> {
    match mode {
        GenerationMode::StubOnly => gen_stub_only(m, cmd),
        GenerationMode::MarshalledWrapper => gen_marshalled(m, cmd),
        GenerationMode::HostCommand => gen_host_command(m),
    }
}

/// A fresh identifier token with the given text.
fn ident_tok(s: &str) -> (r: Tok)
    ensures
        r@ == TokModel::Ident(s@),
{
    Tok::Ident(String::from_str(s))
}

/// Whether the declaration's leading modifiers contain the identifier
/// `word`.  A modifier anywhere else in the declaration is not detected —
/// membership here is the only test, never a validation.
pub fn has_modifier(sig: &ParsedSignature, word: &str) -> (b: bool)
    ensures
        b == sig_has_modifier(sig@, word@),
{
    let kw = String::from_str(word);
    let n = sig.leading_modifiers.len();
    let mut i: usize = 0;
    while i < n
        invariant
            i <= n,
            n == sig.leading_modifiers@.len(),
            kw@ == word@,
            forall|j: int|
                0 <= j < i ==> toks_view(sig.leading_modifiers@)[j] != TokModel::Ident(word@),
        decreases n - i,
    {
        if crate::sig::tok_is_ident(&sig.leading_modifiers[i], &kw) {
            proof {
                assert(sig@.leading[i as int] == TokModel::Ident(word@));
            }
            return true;
        }
        i += 1;
    }
    false
}

/// The parameter names, cloned in declaration order.
fn param_names(params: &Vec<Param>) -> (r: Vec<String>)
    ensures
        strings_view(r@) == names_of(params_view(params@)),
{
    let mut r: Vec<String> = Vec::new();
    let mut i: usize = 0;
    while i < params.len()
        invariant
            i <= params.len(),
            strings_view(r@) == names_of(params_view(params@)).take(i as int),
        decreases params.len() - i,
    {
        let ghost prev = r@;
        let nm = params[i].name.clone();
        proof {
            assert(nm@ == params_view(params@)[i as int].name);
        }
        r.push(nm);
        proof {
            assert(strings_view(prev).len() == prev.len());
            assert(prev.len() == i);
            assert(r@ == prev.push(nm));
            assert(strings_view(r@).len() == i + 1);
            assert forall|j: int| 0 <= j < i + 1 implies strings_view(r@)[j] == names_of(
                params_view(params@),
            ).take(i + 1)[j] by {
                if j < i {
                    assert(strings_view(prev)[j] == names_of(params_view(params@)).take(
                        i as int,
                    )[j]);
                }
            };
            assert(strings_view(r@) =~= names_of(params_view(params@)).take(i + 1));
        }
        i += 1;
    }
    proof {
        assert(names_of(params_view(params@)).take(params@.len() as int) =~= names_of(
            params_view(params@),
        ));
    }
    r
}

/// The original name behind the internal prefix.
fn prefixed_name(name: &String) -> (r: String)
    ensures
        r@ == prefixed(name@),
{
    let mut r = String::from_str("__");
    r.append(name.as_str());
    r
}

/// The names joined with commas.
fn join_names_exec(names: &Vec<String>) -> (r: String)
    ensures
        r@ == join_names(strings_view(names@)),
{
    let ghost full = strings_view(names@);
    let mut r = String::new();
    let mut i: usize = 0;
    while i < names.len()
        invariant
            i <= names.len(),
            full == strings_view(names@),
            r@ == join_names(full.take(i as int)),
        decreases names.len() - i,
    {
        proof {
            lemma_join_names_snoc(full.take(i as int), full[i as int]);
            assert(full.take(i + 1) =~= full.take(i as int).push(full[i as int]));
        }
        if i > 0 {
            r.append(",");
        }
        r.append(names[i].as_str());
        proof {
            assert(r@ =~= join_names(full.take(i + 1)));
        }
        i += 1;
    }
    proof {
        assert(full.take(names@.len() as int) =~= full);
    }
    r
}

/// The stub-only forwarding snippet, built as one string.
fn build_stub_snippet(cmd: &String, names: &Vec<String>, is_async: bool) -> (r: String)
    ensures
        r@ == stub_snippet(cmd@, strings_view(names@), is_async),
{
    let joined = join_names_exec(names);
    let mut r = String::from_str("export ");
    if is_async {
        r.append("async ");
    }
    r.append("function ");
    r.append(cmd.as_str());
    r.append("(");
    r.append(joined.as_str());
    r.append(") { return ");
    if is_async {
        r.append("await ");
    }
    r.append("invoke(\"");
    r.append(cmd.as_str());
    r.append("\", {");
    r.append(joined.as_str());
    r.append("}); }");
    proof {
        assert(r@ =~= stub_snippet(cmd@, strings_view(names@), is_async));
    }
    r
}

/// The marshalled-mode forwarding snippet, built as one string.
fn build_marshal_snippet(cmd: &String, names: &Vec<String>) -> (r: String)
    ensures
        r@ == marshal_snippet(cmd@, strings_view(names@)),
{
    let joined = join_names_exec(names);
    let mut r = String::from_str("export async function __");
    r.append(cmd.as_str());
    r.append("(");
    r.append(joined.as_str());
    r.append(") { return await window.__TAURI_INVOKE__('");
    r.append(cmd.as_str());
    r.append("', { ");
    r.append(joined.as_str());
    r.append(" }); }");
    proof {
        assert(r@ =~= marshal_snippet(cmd@, strings_view(names@)));
    }
    r
}

/// The inline-script attribute, as tokens.
fn build_inline_attr(snippet: String) -> (r: Vec<Tok>)
    ensures
        toks_view(r@) == inline_attr(snippet@),
{
    let ghost sv = snippet@;
    let mut args: Vec<Tok> = Vec::new();
    args.push(ident_tok("inline_js"));
    args.push(Tok::Punct('='));
    args.push(Tok::Lit(snippet));
    proof {
        assert(toks_view(args@) =~= seq![
            TokModel::Ident("inline_js"@),
            TokModel::Punct('='),
            TokModel::Lit(sv),
        ]);
    }
    let mut body: Vec<Tok> = Vec::new();
    body.push(ident_tok("wasm_bindgen"));
    body.push(Tok::Group(Delim::Paren, args));
    proof {
        assert(toks_view(body@) =~= inline_attr(sv)[1]->Group_1);
    }
    let mut r: Vec<Tok> = Vec::new();
    r.push(Tok::Punct('#'));
    r.push(Tok::Group(Delim::Bracket, body));
    proof {
        assert(toks_view(r@) =~= inline_attr(sv));
    }
    r
}

/// One transport-string parameter, as tokens.
fn build_string_param_entry(n: &String) -> (r: Vec<Tok>)
    ensures
        toks_view(r@) == string_param_entry(n@),
{
    let mut r: Vec<Tok> = Vec::new();
    r.push(Tok::Ident(n.clone()));
    r.push(Tok::Punct(':'));
    r.push(ident_tok("String"));
    proof {
        assert(toks_view(r@) =~= string_param_entry(n@));
    }
    r
}

/// One marshalled wrapper argument, as tokens.
fn build_ser_arg(n: &String) -> (r: Vec<Tok>)
    ensures
        toks_view(r@) == ser_arg(n@),
{
    let mut arg_g: Vec<Tok> = Vec::new();
    arg_g.push(Tok::Ident(n.clone()));
    let mut lit_g: Vec<Tok> = Vec::new();
    lit_g.push(Tok::Lit(String::from_str("failed to serialize parameter")));
    let mut inner: Vec<Tok> = Vec::new();
    inner.push(ident_tok("serialize"));
    proof {
        assert(toks_view(arg_g@) =~= seq![TokModel::Ident(n@)]);
        assert(toks_view(lit_g@) =~= seq![TokModel::Lit("failed to serialize parameter"@)]);
    }
    inner.push(Tok::Group(Delim::Paren, arg_g));
    inner.push(Tok::Punct('.'));
    inner.push(ident_tok("expect"));
    inner.push(Tok::Group(Delim::Paren, lit_g));
    proof {
        assert(toks_view(inner@) =~= ser_arg(n@)[1]->Group_1);
    }
    let mut r: Vec<Tok> = Vec::new();
    r.push(ident_tok("to_transport"));
    r.push(Tok::Group(Delim::Paren, inner));
    proof {
        assert(toks_view(r@) =~= ser_arg(n@));
    }
    r
}

/// One decoded handler argument, as tokens.
fn build_deser_arg(n: &String) -> (r: Vec<Tok>)
    ensures
        toks_view(r@) == deser_arg(n@),
{
    let mut arg_g: Vec<Tok> = Vec::new();
    arg_g.push(Tok::Ident(n.clone()));
    let mut ft: Vec<Tok> = Vec::new();
    ft.push(ident_tok("from_transport"));
    proof {
        assert(toks_view(arg_g@) =~= seq![TokModel::Ident(n@)]);
    }
    ft.push(Tok::Group(Delim::Paren, arg_g));
    proof {
        assert(toks_view(ft@) =~= deser_arg(n@)[1]->Group_1);
    }
    let mut lit_g: Vec<Tok> = Vec::new();
    lit_g.push(Tok::Lit(String::from_str("failed to deserialize parameter")));
    proof {
        assert(toks_view(lit_g@) =~= seq![TokModel::Lit("failed to deserialize parameter"@)]);
    }
    let mut r: Vec<Tok> = Vec::new();
    r.push(ident_tok("deserialize"));
    r.push(Tok::Group(Delim::Paren, ft));
    r.push(Tok::Punct('.'));
    r.push(ident_tok("expect"));
    r.push(Tok::Group(Delim::Paren, lit_g));
    proof {
        assert(toks_view(r@) =~= deser_arg(n@));
    }
    r
}

/// The all-strings parameter list of a stub or handler, as tokens.
fn string_params_exec(names: &Vec<String>) -> (r: Vec<Tok>)
    ensures
        toks_view(r@) == string_params(strings_view(names@)),
{
    let ghost sv = strings_view(names@);
    let ghost full = Seq::new(sv.len(), |i: int| string_param_entry(sv[i]));
    let mut r: Vec<Tok> = Vec::new();
    let mut i: usize = 0;
    while i < names.len()
        invariant
            i <= names.len(),
            sv == strings_view(names@),
            full.len() == names@.len(),
            forall|j: int| 0 <= j < full.len() ==> full[j] == string_param_entry(names@[j]@),
            toks_view(r@) == interleave_commas(full.take(i as int)),
        decreases names.len() - i,
    {
        proof {
            lemma_interleave_snoc(full.take(i as int), full[i as int]);
            assert(full.take(i + 1) =~= full.take(i as int).push(full[i as int]));
        }
        if i > 0 {
            r.push(Tok::Punct(','));
        }
        let mut e = build_string_param_entry(&names[i]);
        r.append(&mut e);
        proof {
            assert(toks_view(r@) =~= interleave_commas(full.take(i + 1)));
        }
        i += 1;
    }
    proof {
        assert(full.take(names@.len() as int) =~= full);
        assert(full =~= Seq::new(sv.len(), |i: int| string_param_entry(sv[i])));
    }
    r
}

/// The wrapper's marshalled arguments, as tokens.
fn ser_args_exec(names: &Vec<String>) -> (r: Vec<Tok>)
    ensures
        toks_view(r@) == ser_args(strings_view(names@)),
{
    let ghost sv = strings_view(names@);
    let ghost full = Seq::new(sv.len(), |i: int| ser_arg(sv[i]));
    let mut r: Vec<Tok> = Vec::new();
    let mut i: usize = 0;
    while i < names.len()
        invariant
            i <= names.len(),
            sv == strings_view(names@),
            full.len() == names@.len(),
            forall|j: int| 0 <= j < full.len() ==> full[j] == ser_arg(names@[j]@),
            toks_view(r@) == interleave_commas(full.take(i as int)),
        decreases names.len() - i,
    {
        proof {
            lemma_interleave_snoc(full.take(i as int), full[i as int]);
            assert(full.take(i + 1) =~= full.take(i as int).push(full[i as int]));
        }
        if i > 0 {
            r.push(Tok::Punct(','));
        }
        let mut e = build_ser_arg(&names[i]);
        r.append(&mut e);
        proof {
            assert(toks_view(r@) =~= interleave_commas(full.take(i + 1)));
        }
        i += 1;
    }
    proof {
        assert(full.take(names@.len() as int) =~= full);
        assert(full =~= Seq::new(sv.len(), |i: int| ser_arg(sv[i])));
    }
    r
}

/// The handler's decoded arguments, as tokens.
fn deser_args_exec(names: &Vec<String>) -> (r: Vec<Tok>)
    ensures
        toks_view(r@) == deser_args(strings_view(names@)),
{
    let ghost sv = strings_view(names@);
    let ghost full = Seq::new(sv.len(), |i: int| deser_arg(sv[i]));
    let mut r: Vec<Tok> = Vec::new();
    let mut i: usize = 0;
    while i < names.len()
        invariant
            i <= names.len(),
            sv == strings_view(names@),
            full.len() == names@.len(),
            forall|j: int| 0 <= j < full.len() ==> full[j] == deser_arg(names@[j]@),
            toks_view(r@) == interleave_commas(full.take(i as int)),
        decreases names.len() - i,
    {
        proof {
            lemma_interleave_snoc(full.take(i as int), full[i as int]);
            assert(full.take(i + 1) =~= full.take(i as int).push(full[i as int]));
        }
        if i > 0 {
            r.push(Tok::Punct(','));
        }
        let mut e = build_deser_arg(&names[i]);
        r.append(&mut e);
        proof {
            assert(toks_view(r@) =~= interleave_commas(full.take(i + 1)));
        }
        i += 1;
    }
    proof {
        assert(full.take(names@.len() as int) =~= full);
        assert(full =~= Seq::new(sv.len(), |i: int| deser_arg(sv[i])));
    }
    r
}

/// The marshalled wrapper's body, as tokens.
fn build_marshal_body(sig: &ParsedSignature, names: &Vec<String>) -> (r: Vec<Tok>)
    requires
        strings_view(names@) == names_of(sig@.params),
    ensures
        toks_view(r@) == marshal_body(sig@),
{
    let is_async = has_modifier(sig, "async");
    let mut call: Vec<Tok> = Vec::new();
    call.push(Tok::Ident(prefixed_name(&sig.name)));
    call.push(Tok::Group(Delim::Paren, ser_args_exec(names)));
    if is_async {
        call.push(Tok::Punct('.'));
        call.push(ident_tok("await"));
    }
    proof {
        assert(toks_view(call@) =~= marshal_body(sig@)[1]->Group_1[1]->Group_1);
    }
    let mut ft: Vec<Tok> = Vec::new();
    ft.push(ident_tok("from_transport"));
    ft.push(Tok::Group(Delim::Paren, call));
    proof {
        assert(toks_view(ft@) =~= marshal_body(sig@)[1]->Group_1);
    }
    let mut lit_g: Vec<Tok> = Vec::new();
    lit_g.push(Tok::Lit(String::from_str("failed to deserialize payload")));
    proof {
        assert(toks_view(lit_g@) =~= seq![TokModel::Lit("failed to deserialize payload"@)]);
    }
    let mut r: Vec<Tok> = Vec::new();
    r.push(ident_tok("deserialize"));
    r.push(Tok::Group(Delim::Paren, ft));
    r.push(Tok::Punct('.'));
    r.push(ident_tok("expect"));
    r.push(Tok::Group(Delim::Paren, lit_g));
    proof {
        assert(toks_view(r@) =~= marshal_body(sig@));
    }
    r
}

/// The host-command handler's body, as tokens.
fn build_host_body(sig: &ParsedSignature, names: &Vec<String>) -> (r: Vec<Tok>)
    requires
        strings_view(names@) == names_of(sig@.params),
    ensures
        toks_view(r@) == host_body(sig@),
{
    let mut call: Vec<Tok> = Vec::new();
    call.push(Tok::Ident(prefixed_name(&sig.name)));
    call.push(Tok::Group(Delim::Paren, deser_args_exec(names)));
    proof {
        assert(toks_view(call@) =~= host_body(sig@)[1]->Group_1);
    }
    let mut lit_g: Vec<Tok> = Vec::new();
    lit_g.push(Tok::Lit(String::from_str("failed to serialize")));
    proof {
        assert(toks_view(lit_g@) =~= seq![TokModel::Lit("failed to serialize"@)]);
    }
    let mut r: Vec<Tok> = Vec::new();
    r.push(ident_tok("serialize"));
    r.push(Tok::Group(Delim::Paren, call));
    r.push(Tok::Punct('.'));
    r.push(ident_tok("expect"));
    r.push(Tok::Group(Delim::Paren, lit_g));
    proof {
        assert(toks_view(r@) =~= host_body(sig@));
    }
    r
}

/// Stub-only mode: one import declaration bound to its inline snippet.
pub fn generate_stub_only(sig: &ParsedSignature, cmd: &String) -> (r: Vec<Vec<Tok>>)
    ensures
        decls_view(r@) == gen_stub_only(sig@, cmd@),
{
    let names = param_names(&sig.params);
    let is_async = has_modifier(sig, "async");
    let snippet = build_stub_snippet(cmd, &names, is_async);
    let mut d = build_inline_attr(snippet);
    let mut lead = crate::sig::clone_all(&sig.leading_modifiers);
    d.append(&mut lead);
    d.push(Tok::Ident(sig.name.clone()));
    d.push(Tok::Group(sig.param_delim, render_params_exec(&sig.params)));
    let mut rc = crate::sig::clone_all(&sig.return_clause);
    d.append(&mut rc);
    d.push(Tok::Punct(';'));
    proof {
        assert(toks_view(d@) =~= gen_stub_only(sig@, cmd@)[0]);
    }
    let mut r: Vec<Vec<Tok>> = Vec::new();
    r.push(d);
    proof {
        assert(decls_view(r@) =~= gen_stub_only(sig@, cmd@));
    }
    r
}

/// Marshalled mode: the private all-strings stub and the public wrapper.
pub fn generate_marshalled(sig: &ParsedSignature, cmd: &String) -> (r: Vec<Vec<Tok>>)
    ensures
        decls_view(r@) == gen_marshalled(sig@, cmd@),
{
    let names = param_names(&sig.params);
    let snippet = build_marshal_snippet(cmd, &names);
    let mut d0 = build_inline_attr(snippet);
    let mut lead0 = crate::sig::clone_all(&sig.leading_modifiers);
    d0.append(&mut lead0);
    d0.push(Tok::Ident(prefixed_name(&sig.name)));
    d0.push(Tok::Group(Delim::Paren, string_params_exec(&names)));
    d0.push(Tok::Punct('-'));
    d0.push(Tok::Punct('>'));
    d0.push(ident_tok("Bytes"));
    d0.push(Tok::Punct(';'));
    proof {
        assert(toks_view(d0@) =~= gen_marshalled(sig@, cmd@)[0]);
    }
    let mut d1 = crate::sig::clone_all(&sig.leading_modifiers);
    d1.push(Tok::Ident(sig.name.clone()));
    d1.push(Tok::Group(sig.param_delim, render_params_exec(&sig.params)));
    let mut rc = crate::sig::clone_all(&sig.return_clause);
    d1.append(&mut rc);
    d1.push(Tok::Group(Delim::Brace, build_marshal_body(sig, &names)));
    proof {
        assert(toks_view(d1@) =~= gen_marshalled(sig@, cmd@)[1]);
    }
    let mut r: Vec<Vec<Tok>> = Vec::new();
    r.push(d0);
    r.push(d1);
    proof {
        assert(decls_view(r@) =~= gen_marshalled(sig@, cmd@));
    }
    r
}

/// Host-command mode: the renamed original and the registered handler.
pub fn generate_host_command(sig: &ParsedSignature) -> (r: Vec<Vec<Tok>>)
    ensures
        decls_view(r@) == gen_host_command(sig@),
{
    let names = param_names(&sig.params);
    let mut d0 = crate::sig::clone_all(&sig.leading_modifiers);
    d0.push(Tok::Ident(prefixed_name(&sig.name)));
    d0.push(Tok::Group(sig.param_delim, render_params_exec(&sig.params)));
    let mut rc = crate::sig::clone_all(&sig.return_clause);
    d0.append(&mut rc);
    let mut tr = crate::sig::clone_all(&sig.trailing);
    d0.append(&mut tr);
    proof {
        assert(toks_view(d0@) =~= gen_host_command(sig@)[0]);
    }
    let mut reg: Vec<Tok> = Vec::new();
    reg.push(ident_tok("host_command"));
    proof {
        assert(toks_view(reg@) =~= seq![TokModel::Ident("host_command"@)]);
    }
    let mut d1: Vec<Tok> = Vec::new();
    d1.push(Tok::Punct('#'));
    d1.push(Tok::Group(Delim::Bracket, reg));
    d1.push(ident_tok("fn"));
    d1.push(Tok::Ident(sig.name.clone()));
    d1.push(Tok::Group(Delim::Paren, string_params_exec(&names)));
    d1.push(Tok::Punct('-'));
    d1.push(Tok::Punct('>'));
    d1.push(ident_tok("Bytes"));
    d1.push(Tok::Group(Delim::Brace, build_host_body(sig, &names)));
    proof {
        assert(toks_view(d1@) =~= gen_host_command(sig@)[1]);
    }
    let mut r: Vec<Vec<Tok>> = Vec::new();
    r.push(d0);
    r.push(d1);
    proof {
        assert(decls_view(r@) =~= gen_host_command(sig@));
    }
    r
}

/// Emit the declarations for `sig` under the chosen mode.  Generation
/// never fails: the signature's pieces are spliced as they stand.
pub fn generate(sig: &ParsedSignature, cmd: &String, mode: GenerationMode) -> (r: Vec<Vec<Tok>>)
    ensures
        decls_view(r@) == spec_generate(sig@, cmd@, mode),
{
    match mode {
        GenerationMode::StubOnly => generate_stub_only(sig, cmd),
        GenerationMode::MarshalledWrapper => generate_marshalled(sig, cmd),
        GenerationMode::HostCommand => generate_host_command(sig),
    }
}

} // verus!
