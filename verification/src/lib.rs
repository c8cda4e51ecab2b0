//! Compile-time source transformer for a cross-runtime call bridge.
//!
//! Given the token stream of one annotated function declaration, the library
//! recovers its shape (modifiers, name, parameters, return clause) with a
//! small linear-scan signature parser, and emits new declarations that
//! implement a marshalled remote call against a scripting host's single
//! `invoke`-by-name primitive.  Three generation modes are offered: a bare
//! import stub, a paired marshalled wrapper, and a host-command handler for
//! the inverse direction.

pub mod args;
pub mod gen;
pub mod laws;
pub mod sig;
pub mod token;

pub use token::Delim;
pub use token::Tok;
pub use token::TokModel;

use vstd::prelude::*;

verus! {

/// Process one attribute application in the marshalled-wrapper mode, as
/// the richer attribute entry point does: resolve the command name from
/// the attribute arguments, parse the declaration, and emit the private
/// stub plus the public wrapper.
///
/// Exactly one `name` key is required among the attribute arguments; its
/// value becomes the command name.  There is no default and no inference
/// from the function name: a missing `name` aborts before the declaration
/// is looked at, whatever the declaration holds.
pub fn bind_command(args: &Vec<Tok>, input: &Vec<Tok>) -> (r: Result<Vec<Vec<Tok>>, sig::GenError>)
    ensures
        (args::spec_find_arg(token::toks_view(args@), "name"@) is None <==> r == Err::<
            Vec<Vec<Tok>>,
            sig::GenError,
        >(sig::GenError::MissingNameArgument)),
        (args::spec_find_arg(token::toks_view(args@), "name"@) matches Some(cmd) ==> (match sig::spec_parse(
            token::toks_view(input@),
        ) {
            Ok(m) => (r matches Ok(ds) && gen::decls_view(ds@) == gen::gen_marshalled(m, cmd)),
            Err(e) => r == Err::<Vec<Vec<Tok>>, sig::GenError>(e),
        })),
{
    let cmd = match args::find_arg(args, "name") {
        Some(c) => c,
        None => {
            return Err(sig::GenError::MissingNameArgument);
        },
    };
    let parsed = match sig::parse_fn(input) {
        Ok(p) => p,
        Err(e) => {
            proof {
                assert(sig::spec_parse(token::toks_view(input@)) != Err::<sig::SigModel, sig::GenError>(
                    sig::GenError::MissingNameArgument,
                ));
            }
            return Err(e);
        },
    };
    Ok(gen::generate_marshalled(&parsed, &cmd))
}

/// Process one attribute application in the host-command mode: parse the
/// declaration and emit the renamed original plus the registered handler.
/// The attribute arguments are accepted and ignored, as the original
/// entry point ignores them.
pub fn command(_args: &Vec<Tok>, input: &Vec<Tok>) -> (r: Result<Vec<Vec<Tok>>, sig::GenError>)
    ensures
        (match sig::spec_parse(token::toks_view(input@)) {
            Ok(m) => (r matches Ok(ds) && gen::decls_view(ds@) == gen::gen_host_command(m)),
            Err(e) => r == Err::<Vec<Vec<Tok>>, sig::GenError>(e),
        }),
{
    let parsed = match sig::parse_fn(input) {
        Ok(p) => p,
        Err(e) => {
            return Err(e);
        },
    };
    Ok(gen::generate_host_command(&parsed))
}

} // verus!
