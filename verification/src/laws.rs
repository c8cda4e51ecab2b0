//! Properties of the generator, stated over the emitted declarations.
//!
//! These laws read the generated token sequences back — splitting a
//! parameter group on its commas, or indexing into a snippet — so that what
//! they state is a property of the output itself, not a restatement of how
//! it was built.

use vstd::prelude::*;

use crate::gen::gen_marshalled;
use crate::gen::interleave_commas;
use crate::gen::join_names;
use crate::gen::marshal_snippet;
use crate::gen::names_of;
use crate::gen::string_param_entry;
use crate::gen::string_params;
use crate::gen::stub_snippet;
use crate::sig::ParamModel;
use crate::sig::SigModel;
use crate::sig::find_punct_at;
use crate::sig::lemma_find_punct_at;
use crate::sig::param_wf;
use crate::sig::render_param;
use crate::sig::rendered_params;
use crate::token::TokModel;

verus! {

/// A token sequence split at every top-level comma.
pub open spec fn split_commas(s: Seq<TokModel>) -> Seq<Seq<TokModel>>
    decreases s.len(),
{
    let k = find_punct_at(s, ',', 0);
    if k >= s.len() {
        seq![s]
    } else {
        proof {
            lemma_find_punct_at(s, ',', 0);
        }
        seq![s.take(k)] + split_commas(s.skip(k + 1))
    }
}

/// No top-level comma among these tokens.
pub open spec fn comma_free(e: Seq<TokModel>) -> bool {
    forall|j: int| 0 <= j < e.len() ==> e[j] != TokModel::Punct(',')
}

/// The first token of each segment, read as an identifier.
pub open spec fn segment_names(segs: Seq<Seq<TokModel>>) -> Seq<Seq<char>> {
    Seq::new(segs.len(), |i: int| segs[i][0]->Ident_0)
}

/// Splitting on commas undoes comma-interleaving, entry for entry, as long
/// as every entry is non-empty and comma-free.
proof fn lemma_split_interleave(entries: Seq<Seq<TokModel>>)
    requires
        entries.len() >= 1,
        forall|i: int|
            0 <= i < entries.len() ==> (#[trigger] entries[i]).len() >= 1 && comma_free(
                entries[i],
            ),
    ensures
        split_commas(interleave_commas(entries)) == entries,
    decreases entries.len(),
{
    let s = interleave_commas(entries);
    let k = find_punct_at(s, ',', 0);
    lemma_find_punct_at(s, ',', 0);
    if entries.len() == 1 {
        assert(s == entries[0]);
        assert(comma_free(entries[0]));
        if k < s.len() {
            assert(s[k] == TokModel::Punct(','));
            assert(false);
        }
        assert(split_commas(s) =~= entries);
    } else {
        let e0 = entries[0];
        let rest = entries.drop_first();
        assert(s == e0 + seq![TokModel::Punct(',')] + interleave_commas(rest));
        assert(s[e0.len() as int] == TokModel::Punct(','));
        if k < e0.len() {
            assert(s[k] == e0[k]);
            assert(false);
        }
        if k > e0.len() {
            assert(false);
        }
        assert(k == e0.len());
        assert(s.take(k) =~= e0);
        assert(s.skip(k + 1) =~= interleave_commas(rest));
        lemma_split_interleave(rest);
        assert(split_commas(s) == seq![e0] + split_commas(s.skip(k + 1)));
        assert(seq![e0] + rest =~= entries);
    }
}

/// Rendering a parameter list is comma-interleaving its rendered entries.
proof fn lemma_rendered_is_interleave(ps: Seq<ParamModel>)
    ensures
        rendered_params(ps) == interleave_commas(Seq::new(ps.len(), |i: int| render_param(ps[i]))),
    decreases ps.len(),
{
    let entries = Seq::new(ps.len(), |i: int| render_param(ps[i]));
    if ps.len() == 0 {
    } else if ps.len() == 1 {
        assert(interleave_commas(entries) == entries[0]);
    } else {
        lemma_rendered_is_interleave(ps.drop_first());
        let sub = Seq::new(ps.drop_first().len(), |i: int| render_param(ps.drop_first()[i]));
        assert(entries.drop_first() =~= sub);
        assert(interleave_commas(entries) == entries[0] + seq![TokModel::Punct(',')]
            + interleave_commas(entries.drop_first()));
    }
}

/// Parameter order is preserved.  For a declaration with N parameters, the
/// marshalled mode's generated stub and generated wrapper each carry a
/// parameter group of exactly N comma-separated entries, and reading the
/// entry names back from either group, in order, yields the source
/// declaration's parameter names, in order.
pub proof fn lemma_parameter_order(m: SigModel, cmd: Seq<char>)
    requires
        m.params.len() >= 1,
        forall|j: int| 0 <= j < m.params.len() ==> param_wf(#[trigger] m.params[j]),
    ensures
        ({
            let stub_group = gen_marshalled(m, cmd)[0][m.leading.len() + 3int];
            let wrapper_group = gen_marshalled(m, cmd)[1][m.leading.len() + 1int];
            &&& stub_group is Group
            &&& split_commas(stub_group->Group_1).len() == m.params.len()
            &&& segment_names(split_commas(stub_group->Group_1)) == names_of(m.params)
            &&& wrapper_group is Group
            &&& split_commas(wrapper_group->Group_1).len() == m.params.len()
            &&& segment_names(split_commas(wrapper_group->Group_1)) == names_of(m.params)
        }),
{
    let names = names_of(m.params);
    let stub = gen_marshalled(m, cmd)[0];
    let wrapper = gen_marshalled(m, cmd)[1];
    let li = m.leading.len() as int;
    assert(stub[li + 3] == TokModel::Group(crate::token::Delim::Paren, string_params(names)));
    assert(wrapper[li + 1] == TokModel::Group(m.param_delim, rendered_params(m.params)));
    let s_entries = Seq::new(names.len(), |i: int| string_param_entry(names[i]));
    assert forall|i: int| 0 <= i < s_entries.len() implies (#[trigger] s_entries[i]).len() >= 1
        && comma_free(s_entries[i]) by {
        assert(s_entries[i] == string_param_entry(names[i]));
    }
    lemma_split_interleave(s_entries);
    assert(segment_names(split_commas(string_params(names))) =~= names);
    let w_entries = Seq::new(m.params.len(), |i: int| render_param(m.params[i]));
    assert forall|i: int| 0 <= i < w_entries.len() implies (#[trigger] w_entries[i]).len() >= 1
        && comma_free(w_entries[i]) by {
        assert(w_entries[i] == render_param(m.params[i]));
        assert(param_wf(m.params[i]));
        assert forall|j: int| 0 <= j < w_entries[i].len() implies w_entries[i][j]
            != TokModel::Punct(',') by {
            if j >= 2 {
                assert(w_entries[i][j] == m.params[i].ty[j - 2]);
            }
        }
    }
    lemma_rendered_is_interleave(m.params);
    lemma_split_interleave(w_entries);
    assert(segment_names(split_commas(rendered_params(m.params))) =~= names);
}

/// The command name propagates intact.  Each synthesized inline snippet carries the
/// command name, exactly as supplied, at the invocation-key position of
/// the emitted host call — the single quoted key handed to the invocation
/// primitive — and the name is spliced nowhere else into that key.
pub proof fn lemma_command_name_propagation(cmd: Seq<char>, names: Seq<Seq<char>>, is_async: bool)
    ensures
        ({
            let s = marshal_snippet(cmd, names);
            let key_at = "export async function __"@.len() + cmd.len() + "("@.len()
                + join_names(names).len() + ") { return await window.__TAURI_INVOKE__('"@.len();
            s.subrange(key_at as int, key_at + cmd.len() as int) == cmd
        }),
        ({
            let s = stub_snippet(cmd, names, is_async);
            let key_at = "export "@.len() + (if is_async {
                "async "@.len()
            } else {
                0
            }) + "function "@.len() + cmd.len() + "("@.len() + join_names(names).len()
                + ") { return "@.len() + (if is_async {
                "await "@.len()
            } else {
                0
            }) + "invoke(\""@.len();
            s.subrange(key_at as int, key_at + cmd.len() as int) == cmd
        }),
{
    let s1 = marshal_snippet(cmd, names);
    let key1 = "export async function __"@.len() + cmd.len() + "("@.len()
        + join_names(names).len() + ") { return await window.__TAURI_INVOKE__('"@.len();
    assert(s1.subrange(key1 as int, key1 + cmd.len() as int) =~= cmd);
    let s2 = stub_snippet(cmd, names, is_async);
    let key2 = "export "@.len() + (if is_async {
        "async "@.len()
    } else {
        0
    }) + "function "@.len() + cmd.len() + "("@.len() + join_names(names).len()
        + ") { return "@.len() + (if is_async {
        "await "@.len()
    } else {
        0
    }) + "invoke(\""@.len();
    assert(s2.subrange(key2 as int, key2 + cmd.len() as int) =~= cmd);
}

} // verus!
