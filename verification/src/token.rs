//! The lexical token model.
//!
//! A token is an opaque lexical unit: an identifier, a single punctuation
//! character, a bracketed group holding a nested token sequence, or a
//! literal.  Tokens are produced by an upstream lexer, never mutated here;
//! the parser only slices and re-groups them.  `Tok` is the executable
//! representation and `TokModel` its mathematical view, in which all text is
//! a `Seq<char>` and group contents are sequences of models.

use vstd::prelude::*;

verus! {

/// The delimiter of a bracketed token group.
#[derive(Clone, Copy, Debug, PartialEq, Eq, Structural)]
pub enum Delim {
    Paren,
    Bracket,
    Brace,
}

/// An executable lexical token.
#[derive(Debug, PartialEq, Eq)]
pub enum Tok {
    Ident(String),
    Punct(char),
    Group(Delim, Vec<Tok>),
    Lit(String),
}

/// The mathematical model of a token: text becomes `Seq<char>`, a group's
/// contents become a sequence of models.
pub enum TokModel {
    Ident(Seq<char>),
    Punct(char),
    Group(Delim, Seq<TokModel>),
    Lit(Seq<char>),
}

/// The model of a single token.
pub open spec fn tok_view(t: Tok) -> TokModel
    decreases t,
{
    match t {
        Tok::Ident(s) => TokModel::Ident(s@),
        Tok::Punct(c) => TokModel::Punct(c),
        Tok::Group(d, ts) => TokModel::Group(d, toks_view(ts@)),
        Tok::Lit(s) => TokModel::Lit(s@),
    }
}

/// The model of a token sequence, element by element.
pub open spec fn toks_view(ts: Seq<Tok>) -> Seq<TokModel>
    decreases ts,
{
    if ts.len() == 0 {
        Seq::empty()
    } else {
        seq![tok_view(ts[0])] + toks_view(ts.drop_first())
    }
}

impl View for Tok {
    type V = TokModel;

    open spec fn view(&self) -> TokModel {
        tok_view(*self)
    }
}

/// `toks_view` is pointwise `tok_view`.
pub broadcast proof fn lemma_toks_view(ts: Seq<Tok>)
    ensures
        (#[trigger] toks_view(ts)).len() == ts.len(),
        forall|i: int| 0 <= i < ts.len() ==> toks_view(ts)[i] == tok_view(ts[i]),
    decreases ts,
{
    if ts.len() > 0 {
        lemma_toks_view(ts.drop_first());
    }
}

impl Clone for Tok {
    /// A clone has the same model as the original.
    fn clone(&self) -> (res: Tok)
        ensures
            res@ == self@,
        decreases *self,
    {
        broadcast use lemma_toks_view;

        match self {
            Tok::Ident(s) => Tok::Ident(s.clone()),
            Tok::Punct(c) => Tok::Punct(*c),
            Tok::Lit(s) => Tok::Lit(s.clone()),
            Tok::Group(d, ts) => {
                let mut v: Vec<Tok> = Vec::new();
                let mut i: usize = 0;
                while i < ts.len()
                    invariant
                        i <= ts.len(),
                        *self == Tok::Group(*d, *ts),
                        toks_view(v@) == toks_view(ts@).take(i as int),
                    decreases ts.len() - i,
                {
                    proof {
                        assert(decreases_to!(*self => self->Group_1));
                        assert(self->Group_1 == *ts);
                        assert(decreases_to!(*ts => ts@));
                        assert(decreases_to!(ts@ => ts@[i as int]));
                    }
                    let t = ts[i].clone();
                    proof {
                        let gv = v@;
                        let m = toks_view(ts@);
                        let j = i as int;
                        lemma_toks_view(gv);
                        lemma_toks_view(gv.push(t));
                        lemma_toks_view(ts@);
                        assert(gv.len() == j);
                        assert forall|k: int| 0 <= k < j + 1 implies toks_view(gv.push(t))[k]
                            == m.take(j + 1)[k] by {
                            assert(toks_view(gv.push(t))[k] == tok_view(gv.push(t)[k]));
                            if k < j {
                                assert(toks_view(gv)[k] == m.take(j)[k]);
                            }
                        };
                        assert(toks_view(gv.push(t)) =~= m.take(j + 1));
                    }
                    v.push(t);
                    i = i + 1;
                }
                proof {
                    assert(toks_view(ts@).take(ts@.len() as int) =~= toks_view(ts@));
                }
                Tok::Group(*d, v)
            },
        }
    }
}

} // verus!
