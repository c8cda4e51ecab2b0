//! The signature parser.
//!
//! One function declaration arrives as a flat token sequence.  A linear scan
//! finds the `fn` keyword; the next token is the function name and the token
//! after that must be a bracketed group holding the parameter list.  The
//! group's contents are split on commas — at the top level only, without
//! tracking nested angle brackets, so a parameter whose type itself contains
//! a comma is mis-split; that is a documented boundary condition, not a goal
//! to fix.  Each segment must be an identifier, a colon, and at least one
//! type token.  Everything before the keyword (visibility, asynchrony, other
//! modifiers) and everything after the group (return clause, body or
//! terminator) is preserved verbatim, so that reassembling the parsed pieces
//! reproduces the input exactly.

use vstd::prelude::*;

use crate::token::Delim;
use crate::token::Tok;
use crate::token::TokModel;
use crate::token::lemma_toks_view;
use crate::token::tok_view;
use crate::token::toks_view;
use vstd::string::StringExecFns;

verus! {

broadcast use lemma_toks_view;

/// Why processing a declaration was abandoned.  Each case is a
/// configuration error: there is no partial or degraded output.
#[derive(Clone, Copy, Debug, PartialEq, Eq, Structural)]
pub enum GenError {
    /// The attribute arguments carry no `name = ...` pair.
    MissingNameArgument,
    /// No `fn` keyword followed by a name identifier was found.
    FnKeywordNotFound,
    /// The token after the function name is not a bracketed group.
    ParamGroupMissing,
    /// A parameter segment is not an identifier, a colon, and a type.
    MalformedParam,
}

impl GenError {
    /// The diagnostic wording of each failure.
    pub fn describe(&self) -> (m: String)
        ensures
            *self == GenError::MissingNameArgument ==> m@ == "must supply the argument: name"@,
            *self == GenError::FnKeywordNotFound ==> m@ == "failed to find pred"@,
            *self == GenError::ParamGroupMissing ==> m@ == "couldn't find group"@,
            *self == GenError::MalformedParam ==> m@ == "malformed parameter segment"@,
    {
        match self {
            GenError::MissingNameArgument => String::from_str("must supply the argument: name"),
            GenError::FnKeywordNotFound => String::from_str("failed to find pred"),
            GenError::ParamGroupMissing => String::from_str("couldn't find group"),
            GenError::MalformedParam => String::from_str("malformed parameter segment"),
        }
    }
}

/// The model of one parameter: its name and its type tokens, kept verbatim.
pub struct ParamModel {
    pub name: Seq<char>,
    pub ty: Seq<TokModel>,
}

/// The model of a parsed declaration.  `leading` ends with the `fn` keyword
/// itself; `return_clause` holds everything between the parameter group and
/// the final body or terminator token, which sits in `trailing`.
pub struct SigModel {
    pub leading: Seq<TokModel>,
    pub name: Seq<char>,
    pub param_delim: Delim,
    pub params: Seq<ParamModel>,
    pub return_clause: Seq<TokModel>,
    pub trailing: Seq<TokModel>,
}

/// Index of the first occurrence of identifier `w` at or after `i`, or the
/// length of `s` if there is none.
pub open spec fn find_ident_at(s: Seq<TokModel>, w: Seq<char>, i: int) -> int
    decreases s.len() - i,
{
    if i < 0 || i >= s.len() {
        s.len() as int
    } else if s[i] == TokModel::Ident(w) {
        i
    } else {
        find_ident_at(s, w, i + 1)
    }
}

/// Index of the first occurrence of punctuation `c` at or after `i`, or the
/// length of `s` if there is none.
pub open spec fn find_punct_at(s: Seq<TokModel>, c: char, i: int) -> int
    decreases s.len() - i,
{
    if i < 0 || i >= s.len() {
        s.len() as int
    } else if s[i] == TokModel::Punct(c) {
        i
    } else {
        find_punct_at(s, c, i + 1)
    }
}

pub proof fn lemma_find_ident_at(s: Seq<TokModel>, w: Seq<char>, i: int)
    requires
        0 <= i <= s.len(),
    ensures
        i <= find_ident_at(s, w, i) <= s.len(),
        find_ident_at(s, w, i) < s.len() ==> s[find_ident_at(s, w, i)] == TokModel::Ident(w),
        forall|j: int| i <= j < find_ident_at(s, w, i) ==> s[j] != TokModel::Ident(w),
    decreases s.len() - i,
{
    if i < s.len() && s[i] != TokModel::Ident(w) {
        lemma_find_ident_at(s, w, i + 1);
    }
}

pub proof fn lemma_find_punct_at(s: Seq<TokModel>, c: char, i: int)
    requires
        0 <= i <= s.len(),
    ensures
        i <= find_punct_at(s, c, i) <= s.len(),
        find_punct_at(s, c, i) < s.len() ==> s[find_punct_at(s, c, i)] == TokModel::Punct(c),
        forall|j: int| i <= j < find_punct_at(s, c, i) ==> s[j] != TokModel::Punct(c),
    decreases s.len() - i,
{
    if i < s.len() && s[i] != TokModel::Punct(c) {
        lemma_find_punct_at(s, c, i + 1);
    }
}

/// One comma-delimited segment of the parameter list: an identifier, a
/// colon, and at least one type token; anything else is malformed.
pub open spec fn parse_segment(seg: Seq<TokModel>) -> Option<ParamModel> {
    if seg.len() >= 3 && seg[1] == TokModel::Punct(':') && seg[0] is Ident {
        Some(ParamModel { name: seg[0]->Ident_0, ty: seg.skip(2) })
    } else {
        None
    }
}

/// The parameter segments of `inner` from position `pos` on, split at every
/// top-level comma.  `None` if any segment is malformed; note that an empty
/// group yields one empty, hence malformed, segment.
pub open spec fn spec_parse_params_at(inner: Seq<TokModel>, pos: int) -> Option<Seq<ParamModel>>
    decreases inner.len() - pos,
        when 0 <= pos <= inner.len()
{
    let k = find_punct_at(inner, ',', pos);
    let seg = inner.subrange(pos, k);
    if k >= inner.len() {
        match parse_segment(seg) {
            Some(p) => Some(seq![p]),
            None => None,
        }
    } else {
        match parse_segment(seg) {
            Some(p) => {
                proof {
                    lemma_find_punct_at(inner, ',', pos);
                }
                match spec_parse_params_at(inner, k + 1) {
                    Some(rest) => Some(seq![p] + rest),
                    None => None,
                }
            },
            None => None,
        }
    }
}

/// What parsing a whole declaration yields: the parsed model, or the reason
/// it was abandoned.
pub open spec fn spec_parse(input: Seq<TokModel>) -> Result<SigModel, GenError> {
    let i = find_ident_at(input, "fn"@, 0);
    if i + 1 >= input.len() || !(input[i + 1] is Ident) {
        Err(GenError::FnKeywordNotFound)
    } else if i + 2 >= input.len() || !(input[i + 2] is Group) {
        Err(GenError::ParamGroupMissing)
    } else {
        match spec_parse_params_at(input[i + 2]->Group_1, 0) {
            None => Err(GenError::MalformedParam),
            Some(ps) => {
                let tail = input.skip(i + 3);
                Ok(SigModel {
                    leading: input.take(i + 1),
                    name: input[i + 1]->Ident_0,
                    param_delim: input[i + 2]->Group_0,
                    params: ps,
                    return_clause: if tail.len() == 0 {
                        Seq::empty()
                    } else {
                        tail.take(tail.len() - 1)
                    },
                    trailing: if tail.len() == 0 {
                        Seq::empty()
                    } else {
                        seq![tail.last()]
                    },
                })
            },
        }
    }
}

/// A parameter rendered back to tokens: `name : type`.
pub open spec fn render_param(p: ParamModel) -> Seq<TokModel> {
    seq![TokModel::Ident(p.name), TokModel::Punct(':')] + p.ty
}

/// A parameter list rendered back to tokens, the entries separated by
/// commas.
pub open spec fn rendered_params(ps: Seq<ParamModel>) -> Seq<TokModel>
    decreases ps.len(),
{
    if ps.len() == 0 {
        Seq::empty()
    } else if ps.len() == 1 {
        render_param(ps[0])
    } else {
        render_param(ps[0]) + seq![TokModel::Punct(',')] + rendered_params(ps.drop_first())
    }
}

/// The parsed pieces put back in original order: modifiers, name, parameter
/// group, return clause, body or terminator.
pub open spec fn reassemble(sig: SigModel) -> Seq<TokModel> {
    sig.leading + seq![TokModel::Ident(sig.name)] + seq![
        TokModel::Group(sig.param_delim, rendered_params(sig.params)),
    ] + sig.return_clause + sig.trailing
}

/// A well-formed parameter: the name is what the segment held, the type is
/// non-empty and contains no top-level comma.  Every parameter produced by
/// the parser is of this shape.
pub open spec fn param_wf(p: ParamModel) -> bool {
    &&& p.ty.len() >= 1
    &&& forall|j: int| 0 <= j < p.ty.len() ==> p.ty[j] != TokModel::Punct(',')
}

/// Splitting on commas is undone by rendering: the segments parsed out of
/// `inner` render back to `inner` itself, and each is well formed.
pub proof fn lemma_params_render(inner: Seq<TokModel>, pos: int)
    requires
        0 <= pos <= inner.len(),
        spec_parse_params_at(inner, pos) is Some,
    ensures
        rendered_params(spec_parse_params_at(inner, pos)->Some_0) == inner.skip(pos),
        spec_parse_params_at(inner, pos)->Some_0.len() >= 1,
        forall|j: int|
            0 <= j < spec_parse_params_at(inner, pos)->Some_0.len() ==> param_wf(
                #[trigger] spec_parse_params_at(inner, pos)->Some_0[j],
            ),
    decreases inner.len() - pos,
{
    let k = find_punct_at(inner, ',', pos);
    lemma_find_punct_at(inner, ',', pos);
    let seg = inner.subrange(pos, k);
    let p = parse_segment(seg)->Some_0;
    assert(render_param(p) =~= seg);
    assert(param_wf(p)) by {
        assert(forall|j: int| 0 <= j < p.ty.len() ==> p.ty[j] == inner[pos + 2 + j]);
    }
    if k >= inner.len() {
        assert(seg =~= inner.skip(pos));
        assert(rendered_params(seq![p]) == render_param(p));
    } else {
        lemma_params_render(inner, k + 1);
        let rest = spec_parse_params_at(inner, k + 1)->Some_0;
        let ps = seq![p] + rest;
        assert(ps.len() >= 2);
        assert(ps[0] == p);
        assert(ps.drop_first() =~= rest);
        assert(rendered_params(ps) == render_param(p) + seq![TokModel::Punct(',')]
            + rendered_params(rest));
        assert(inner[k] == TokModel::Punct(','));
        assert(rendered_params(ps) =~= inner.skip(pos));
    }
}

/// Parsing loses nothing.  For any declaration the parser accepts, the parsed
/// pieces — leading modifiers, name, parameter group, return clause and
/// trailing material — are a lossless partition of the input: reassembling
/// them in original order yields the input token sequence again.
pub proof fn lemma_parse_partition(input: Seq<TokModel>)
    requires
        spec_parse(input) is Ok,
    ensures
        reassemble(spec_parse(input)->Ok_0) == input,
{
    let i = find_ident_at(input, "fn"@, 0);
    lemma_find_ident_at(input, "fn"@, 0);
    let sig = spec_parse(input)->Ok_0;
    let inner = input[i + 2]->Group_1;
    lemma_params_render(inner, 0);
    assert(inner.skip(0) =~= inner);
    assert(TokModel::Group(sig.param_delim, rendered_params(sig.params)) == input[i + 2]);
    let tail = input.skip(i + 3);
    assert(sig.return_clause + sig.trailing =~= tail);
    assert(reassemble(sig) =~= input);
}

/// One parameter: its name and its type tokens, kept verbatim.
#[derive(Debug, PartialEq, Eq)]
pub struct Param {
    pub name: String,
    pub ty: Vec<Tok>,
}

impl View for Param {
    type V = ParamModel;

    open spec fn view(&self) -> ParamModel {
        ParamModel { name: self.name@, ty: toks_view(self.ty@) }
    }
}

/// The model of a parameter sequence, element by element.
pub open spec fn params_view(ps: Seq<Param>) -> Seq<ParamModel> {
    Seq::new(ps.len(), |i: int| ps[i]@)
}

/// A parsed declaration, constructed once, consumed by the generator, and
/// never mutated.
#[derive(Debug, PartialEq, Eq)]
pub struct ParsedSignature {
    /// Every token before the function name, the `fn` keyword itself among them.
    pub leading_modifiers: Vec<Tok>,
    /// The declared function identifier.
    pub name: String,
    /// The delimiter of the parameter group.
    pub param_delim: Delim,
    /// The parameters, in declaration order.
    pub params: Vec<Param>,
    /// The tokens between the parameter group and the trailing material.
    pub return_clause: Vec<Tok>,
    /// The final token: a brace-delimited body or a bare terminator.
    pub trailing: Vec<Tok>,
}

impl View for ParsedSignature {
    type V = SigModel;

    open spec fn view(&self) -> SigModel {
        SigModel {
            leading: toks_view(self.leading_modifiers@),
            name: self.name@,
            param_delim: self.param_delim,
            params: params_view(self.params@),
            return_clause: toks_view(self.return_clause@),
            trailing: toks_view(self.trailing@),
        }
    }
}

/// Whether `t` is the identifier `w`.
pub(crate) fn tok_is_ident(t: &Tok, w: &String) -> (b: bool)
    ensures
        b == (t@ == TokModel::Ident(w@)),
{
    match t {
        Tok::Ident(s) => *s == *w,
        _ => false,
    }
}

/// Whether `t` is the punctuation character `c`.
pub(crate) fn tok_is_punct(t: &Tok, c: char) -> (b: bool)
    ensures
        b == (t@ == TokModel::Punct(c)),
{
    match t {
        Tok::Punct(d) => *d == c,
        _ => false,
    }
}

/// First occurrence of identifier `w` at or after `start`.
fn find_ident(input: &Vec<Tok>, w: &String, start: usize) -> (r: usize)
    requires
        start <= input@.len(),
    ensures
        r == find_ident_at(toks_view(input@), w@, start as int),
{
    let ghost s = toks_view(input@);
    let n = input.len();
    let mut i = start;
    while i < n
        invariant
            start <= i <= n,
            n == input@.len(),
            s == toks_view(input@),
            find_ident_at(s, w@, start as int) == find_ident_at(s, w@, i as int),
        decreases n - i,
    {
        if tok_is_ident(&input[i], w) {
            proof {
                assert(s[i as int] == TokModel::Ident(w@));
            }
            return i;
        }
        i += 1;
    }
    i
}

/// First occurrence of punctuation `c` at or after `start`.
pub(crate) fn find_punct(input: &Vec<Tok>, c: char, start: usize) -> (r: usize)
    requires
        start <= input@.len(),
    ensures
        r == find_punct_at(toks_view(input@), c, start as int),
{
    let ghost s = toks_view(input@);
    let n = input.len();
    let mut i = start;
    while i < n
        invariant
            start <= i <= n,
            n == input@.len(),
            s == toks_view(input@),
            find_punct_at(s, c, start as int) == find_punct_at(s, c, i as int),
        decreases n - i,
    {
        if tok_is_punct(&input[i], c) {
            proof {
                assert(s[i as int] == TokModel::Punct(c));
            }
            return i;
        }
        i += 1;
    }
    i
}

/// A fresh copy of the tokens of `input` in positions `from..to`.
pub(crate) fn clone_range(input: &Vec<Tok>, from: usize, to: usize) -> (r: Vec<Tok>)
    requires
        from <= to <= input@.len(),
    ensures
        toks_view(r@) == toks_view(input@).subrange(from as int, to as int),
{
    let ghost s = toks_view(input@);
    let mut r: Vec<Tok> = Vec::new();
    let mut j = from;
    while j < to
        invariant
            from <= j <= to <= input@.len(),
            s == toks_view(input@),
            toks_view(r@) == s.subrange(from as int, j as int),
        decreases to - j,
    {
        let t = input[j].clone();
        proof {
            let gv = r@;
            assert(gv.len() == j - from);
            assert forall|k: int| 0 <= k < gv.len() + 1 implies toks_view(gv.push(t))[k]
                == s.subrange(from as int, j + 1)[k] by {
                assert(toks_view(gv.push(t))[k] == tok_view(gv.push(t)[k]));
                if k < gv.len() {
                    assert(toks_view(gv)[k] == s.subrange(from as int, j as int)[k]);
                }
            };
            assert(toks_view(gv.push(t)) =~= s.subrange(from as int, j + 1));
        }
        r.push(t);
        j += 1;
    }
    r
}

/// A fresh copy of all tokens of `input`.
pub(crate) fn clone_all(input: &Vec<Tok>) -> (r: Vec<Tok>)
    ensures
        toks_view(r@) == toks_view(input@),
{
    let r = clone_range(input, 0, input.len());
    proof {
        assert(toks_view(input@).subrange(0, input@.len() as int) =~= toks_view(input@));
    }
    r
}

pub proof fn lemma_rendered_params_snoc(ps: Seq<ParamModel>, p: ParamModel)
    ensures
        rendered_params(ps.push(p)) == if ps.len() == 0 {
            render_param(p)
        } else {
            rendered_params(ps) + seq![TokModel::Punct(',')] + render_param(p)
        },
    decreases ps.len(),
{
    if ps.len() > 0 {
        lemma_rendered_params_snoc(ps.drop_first(), p);
        assert(ps.push(p).drop_first() =~= ps.drop_first().push(p));
        assert(rendered_params(ps.push(p)) =~= rendered_params(ps) + seq![TokModel::Punct(',')]
            + render_param(p));
    }
}

/// The parameter list rendered back to tokens: `name : type`, the entries
/// separated by commas.
pub fn render_params_exec(params: &Vec<Param>) -> (r: Vec<Tok>)
    ensures
        toks_view(r@) == rendered_params(params_view(params@)),
{
    let ghost full = params_view(params@);
    let mut r: Vec<Tok> = Vec::new();
    let mut i: usize = 0;
    while i < params.len()
        invariant
            i <= params.len(),
            full == params_view(params@),
            toks_view(r@) == rendered_params(full.take(i as int)),
        decreases params.len() - i,
    {
        proof {
            lemma_rendered_params_snoc(full.take(i as int), full[i as int]);
            assert(full.take(i + 1) =~= full.take(i as int).push(full[i as int]));
        }
        if i > 0 {
            r.push(Tok::Punct(','));
        }
        r.push(Tok::Ident(params[i].name.clone()));
        r.push(Tok::Punct(':'));
        let mut ty = clone_all(&params[i].ty);
        r.append(&mut ty);
        proof {
            assert(toks_view(r@) =~= rendered_params(full.take(i + 1)));
        }
        i += 1;
    }
    proof {
        assert(full.take(params@.len() as int) =~= full);
    }
    r
}

/// The parsed pieces put back in original order, as executable tokens.
/// For any accepted declaration this reproduces the input sequence.
pub fn reassemble_signature(sig: &ParsedSignature) -> (r: Vec<Tok>)
    ensures
        toks_view(r@) == reassemble(sig@),
{
    let mut r = clone_all(&sig.leading_modifiers);
    r.push(Tok::Ident(sig.name.clone()));
    r.push(Tok::Group(sig.param_delim, render_params_exec(&sig.params)));
    let mut rc = clone_all(&sig.return_clause);
    r.append(&mut rc);
    let mut tr = clone_all(&sig.trailing);
    r.append(&mut tr);
    proof {
        assert(toks_view(r@) =~= reassemble(sig@));
    }
    r
}

/// The parameter list, split on top-level commas and validated segment by
/// segment.
fn parse_params(inner: &Vec<Tok>) -> (r: Result<Vec<Param>, GenError>)
    ensures
        (r matches Ok(ps) ==> spec_parse_params_at(toks_view(inner@), 0) == Some(
            params_view(ps@),
        )),
        (r matches Err(e) ==> spec_parse_params_at(toks_view(inner@), 0) is None && e
            == GenError::MalformedParam),
{
    let ghost s = toks_view(inner@);
    let n = inner.len();
    let mut params: Vec<Param> = Vec::new();
    let mut pos: usize = 0;
    loop
        invariant
            pos <= n,
            n == inner@.len(),
            s == toks_view(inner@),
            match spec_parse_params_at(s, pos as int) {
                Some(rest) => spec_parse_params_at(s, 0) == Some(params_view(params@) + rest),
                None => spec_parse_params_at(s, 0) is None,
            },
        decreases n - pos,
    {
        let k = find_punct(inner, ',', pos);
        proof {
            lemma_find_punct_at(s, ',', pos as int);
        }
        let ghost seg = s.subrange(pos as int, k as int);
        if k - pos < 3 || !tok_is_punct(&inner[pos + 1], ':') {
            proof {
                assert(parse_segment(seg) is None);
            }
            return Err(GenError::MalformedParam);
        }
        let nm = match &inner[pos] {
            Tok::Ident(x) => x.clone(),
            _ => {
                proof {
                    assert(!(seg[0] is Ident));
                    assert(parse_segment(seg) is None);
                }
                return Err(GenError::MalformedParam);
            },
        };
        let ty = clone_range(inner, pos + 2, k);
        let p = Param { name: nm, ty };
        let ghost pm = parse_segment(seg)->Some_0;
        proof {
            assert(seg[0] == TokModel::Ident(nm@));
            assert(toks_view(ty@) =~= seg.skip(2));
            assert(p@ == pm);
            assert(params_view(params@.push(p)) =~= params_view(params@).push(pm));
        }
        params.push(p);
        if k >= n {
            proof {
                assert(spec_parse_params_at(s, pos as int) == Some(seq![pm]));
                assert(params_view(params@) =~= params_view(params@.drop_last()) + seq![pm]);
            }
            return Ok(params);
        }
        proof {
            let ghost old_params = params@.drop_last();
            assert(params_view(old_params).push(pm) == params_view(params@));
            match spec_parse_params_at(s, k + 1) {
                Some(rest) => {
                    assert(spec_parse_params_at(s, pos as int) == Some(seq![pm] + rest));
                    assert(params_view(old_params) + (seq![pm] + rest) =~= params_view(params@)
                        + rest);
                },
                None => {
                    assert(spec_parse_params_at(s, pos as int) is None);
                },
            }
        }
        pos = k + 1;
    }
}

/// Parse one declaration's token sequence into its structured model.
///
/// Fails, abandoning the declaration, when no `fn` keyword followed by a
/// name can be located, when the token after the name is not a bracketed
/// group, or when a parameter segment is malformed.  On success the result
/// is exactly what `spec_parse` describes, and its pieces reassemble to the
/// input.
pub fn parse_fn(input: &Vec<Tok>) -> (r: Result<ParsedSignature, GenError>)
    ensures
        (r matches Ok(sig) ==> spec_parse(toks_view(input@)) == Ok::<SigModel, GenError>(sig@)),
        (r matches Err(e) ==> spec_parse(toks_view(input@)) == Err::<SigModel, GenError>(e)),
        (r matches Ok(sig) ==> reassemble(sig@) == toks_view(input@)),
        (r matches Ok(sig) ==> sig@.params.len() >= 1 && (forall|j: int|
            0 <= j < sig@.params.len() ==> param_wf(#[trigger] sig@.params[j]))),
{
    let ghost s = toks_view(input@);
    let kw = String::from_str("fn");
    let n = input.len();
    let i = find_ident(input, &kw, 0);
    proof {
        lemma_find_ident_at(s, "fn"@, 0);
    }
    if n - i < 2 {
        return Err(GenError::FnKeywordNotFound);
    }
    let name = match &input[i + 1] {
        Tok::Ident(x) => x.clone(),
        _ => {
            return Err(GenError::FnKeywordNotFound);
        },
    };
    if n - i < 3 {
        return Err(GenError::ParamGroupMissing);
    }
    let (param_delim, params) = match &input[i + 2] {
        Tok::Group(d, inner) => {
            proof {
                assert(s[i + 2] == TokModel::Group(*d, toks_view(inner@)));
            }
            match parse_params(inner) {
                Ok(ps) => (*d, ps),
                Err(e) => {
                    return Err(e);
                },
            }
        },
        _ => {
            return Err(GenError::ParamGroupMissing);
        },
    };
    let leading_modifiers = clone_range(input, 0, i + 1);
    let ghost tail = s.skip(i + 3);
    let (return_clause, trailing) = if n - i >= 4 {
        let rc = clone_range(input, i + 3, n - 1);
        let tr = clone_range(input, n - 1, n);
        proof {
            assert(toks_view(rc@) =~= tail.take(tail.len() - 1));
            assert(toks_view(tr@) =~= seq![tail.last()]);
        }
        (rc, tr)
    } else {
        let rc: Vec<Tok> = Vec::new();
        let tr: Vec<Tok> = Vec::new();
        proof {
            assert(toks_view(rc@) =~= Seq::<TokModel>::empty());
            assert(toks_view(tr@) =~= Seq::<TokModel>::empty());
        }
        (rc, tr)
    };
    let sig = ParsedSignature { leading_modifiers, name, param_delim, params, return_clause, trailing };
    proof {
        assert(toks_view(sig.leading_modifiers@) =~= s.take(i + 1));
        assert(spec_parse(s) == Ok::<SigModel, GenError>(sig@));
        lemma_parse_partition(s);
        lemma_params_render(s[i + 2]->Group_1, 0);
    }
    Ok(sig)
}

} // verus!
