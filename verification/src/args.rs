//! Attribute arguments.
//!
//! The arguments of the processed attribute arrive as one flat token
//! sequence, textually `key = value, key = value, ...`.  The sequence is
//! split on top-level commas; a segment counts as a key-value pair only
//! when it is exactly three tokens — an identifier, an equals sign, and an
//! identifier or literal value — and any other shape is silently skipped,
//! never an error.  The first segment whose key matches is the answer.

use vstd::prelude::*;

use crate::sig::find_punct_at;
use crate::sig::lemma_find_punct_at;
use crate::sig::tok_is_ident;
use crate::sig::tok_is_punct;
use crate::token::Tok;
use crate::token::TokModel;
use crate::token::lemma_toks_view;
use crate::token::toks_view;
use vstd::string::StringExecFns;

verus! {

broadcast use lemma_toks_view;

/// Whether `seg` is a recognized `key = value` pair for this `key`.
pub open spec fn is_kv_segment(seg: Seq<TokModel>, key: Seq<char>) -> bool {
    &&& seg.len() == 3
    &&& seg[0] == TokModel::Ident(key)
    &&& seg[1] == TokModel::Punct('=')
    &&& (seg[2] is Ident || seg[2] is Lit)
}

/// The text of a value token.
pub open spec fn value_text(t: TokModel) -> Seq<char> {
    match t {
        TokModel::Ident(s) => s,
        TokModel::Lit(s) => s,
        _ => Seq::empty(),
    }
}

/// The value of the first recognized `key = value` segment of `args`, or
/// nothing when no segment matches.
pub open spec fn spec_find_arg(args: Seq<TokModel>, key: Seq<char>) -> Option<Seq<char>>
    decreases args.len(),
{
    let k = find_punct_at(args, ',', 0);
    let seg = if k >= args.len() {
        args
    } else {
        args.take(k)
    };
    if is_kv_segment(seg, key) {
        Some(value_text(seg[2]))
    } else if k >= args.len() {
        None
    } else {
        proof {
            lemma_find_punct_at(args, ',', 0);
        }
        spec_find_arg(args.skip(k + 1), key)
    }
}

/// Searching a suffix searches the same commas, shifted.
proof fn lemma_find_punct_shift(s: Seq<TokModel>, c: char, pos: int)
    requires
        0 <= pos <= s.len(),
    ensures
        find_punct_at(s.skip(pos), c, 0) == find_punct_at(s, c, pos) - pos,
{
    let t = s.skip(pos);
    let a = find_punct_at(s, c, pos);
    let b = find_punct_at(t, c, 0);
    lemma_find_punct_at(s, c, pos);
    lemma_find_punct_at(t, c, 0);
    assert(forall|j: int| 0 <= j < t.len() ==> t[j] == s[pos + j]);
    if b < a - pos {
        assert(s[pos + b] == TokModel::Punct(c));
        assert(false);
    }
    if b > a - pos {
        if a == s.len() {
            assert(b <= t.len());
            assert(false);
        } else {
            assert(t[a - pos] == TokModel::Punct(c));
            assert(false);
        }
    }
}

/// Find the value of the first recognized `key = value` pair among the
/// attribute arguments.  Returns nothing — never an error — when no
/// segment matches.
pub fn find_arg(args: &Vec<Tok>, key: &str) -> (r: Option<String>)
    ensures
        (r matches Some(v) ==> spec_find_arg(toks_view(args@), key@) == Some(v@)),
        (r is None ==> spec_find_arg(toks_view(args@), key@) is None),
{
    let ghost s = toks_view(args@);
    let kw = String::from_str(key);
    let n = args.len();
    let mut pos: usize = 0;
    proof {
        assert(s.skip(0) =~= s);
    }
    loop
        invariant
            pos <= n,
            n == args@.len(),
            s == toks_view(args@),
            kw@ == key@,
            spec_find_arg(s, key@) == spec_find_arg(s.skip(pos as int), key@),
        decreases n - pos,
    {
        let k = crate::sig::find_punct(args, ',', pos);
        proof {
            lemma_find_punct_at(s, ',', pos as int);
            lemma_find_punct_shift(s, ',', pos as int);
        }
        let ghost suffix = s.skip(pos as int);
        let ghost seg = if k >= n {
            suffix
        } else {
            suffix.take(k - pos)
        };
        proof {
            assert(seg =~= s.subrange(pos as int, k as int));
        }
        let matched = k - pos == 3 && tok_is_ident(&args[pos], &kw) && tok_is_punct(
            &args[pos + 1],
            '=',
        );
        if matched {
            match &args[pos + 2] {
                Tok::Ident(v) => {
                    proof {
                        assert(is_kv_segment(seg, key@));
                        assert(value_text(seg[2]) == v@);
                    }
                    return Some(v.clone());
                },
                Tok::Lit(v) => {
                    proof {
                        assert(is_kv_segment(seg, key@));
                        assert(value_text(seg[2]) == v@);
                    }
                    return Some(v.clone());
                },
                _ => {
                    proof {
                        assert(!is_kv_segment(seg, key@));
                    }
                },
            }
        }
        proof {
            assert(!is_kv_segment(seg, key@));
        }
        if k >= n {
            proof {
                assert(spec_find_arg(suffix, key@) is None);
            }
            return None;
        }
        proof {
            assert(spec_find_arg(suffix, key@) == spec_find_arg(suffix.skip(k - pos + 1), key@));
            assert(suffix.skip(k - pos + 1) =~= s.skip(k + 1));
        }
        pos = k + 1;
    }
}

} // verus!
