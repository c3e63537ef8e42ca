//! Resolving an annotated map declaration into what the generated item carries:
//! its exported symbol name and the section it is placed in.
use vstd::prelude::*;

use crate::args::{name_arg, resolve_name, Args, ArgsError, NameValue};

verus! {

/// The section that holds every map definition, which the loader scans.
pub open spec fn maps_section() -> Seq<char> {
    ".maps"@
}

/// The exported name of a declaration whose variable is `ident`: the name
/// argument where one is given, the identifier otherwise; or the position of
/// the argument that is refused.
pub open spec fn export_name(args: Seq<NameValue>, ident: Seq<char>) -> Result<Seq<char>, usize> {
    match resolve_name(args) {
        Ok(Some(v)) => Ok(v),
        Ok(None) => Ok(ident),
        Err(p) => Err(p),
    }
}

/// An annotated map declaration, with the name it is exported under.
pub struct BtfMap {
    /// The declared variable's identifier.
    pub ident: String,
    /// The resolved export name.
    pub name: String,
}

/// What the expansion attaches to the declaration.
pub struct Expansion {
    /// The declared variable's identifier, kept as it was.
    pub ident: String,
    /// The linker section the item is placed in.
    pub link_section: String,
    /// The symbol the item is exported as.
    pub export_name: String,
}

impl BtfMap {
    /// Resolves the declaration of variable `ident` under the annotation's arguments.
    pub fn from_syn(args: Args, ident: String) -> (r: Result<BtfMap, ArgsError>)
        ensures
            match (r, export_name(args.args@, ident@)) {
                (Ok(m), Ok(n)) => m.ident@ == ident@ && m.name@ == n,
                (Err(ArgsError::Unknown { pos }), Err(p)) => pos == p,
                _ => false,
            },
    {
        let mut args = args;
        let name = match name_arg(&mut args)? {
            Some(n) => n,
            None => ident.clone(),
        };
        Ok(BtfMap { ident, name })
    }

    /// The attributes of the generated item: placed in the maps section and
    /// exported under the resolved name.
    pub fn expand(&self) -> (r: Expansion)
        ensures
            r.ident@ == self.ident@,
            r.link_section@ == maps_section(),
            r.export_name@ == self.name@,
    {
        proof {
            reveal_strlit(".maps");
        }
        Expansion {
            ident: self.ident.clone(),
            link_section: ".maps".to_owned(),
            export_name: self.name.clone(),
        }
    }
}

/// Without a name argument, a declaration that is accepted is exported under
/// its variable's identifier, verbatim; one with no arguments at all is accepted.
pub proof fn lemma_default_name(args: Seq<NameValue>, ident: Seq<char>)
    requires
        forall|i: int| 0 <= i < args.len() ==> (#[trigger] args[i]).name@ != "name"@,
    ensures
        export_name(args, ident) is Ok ==> export_name(args, ident) == Ok::<Seq<char>, usize>(
            ident,
        ),
        args.len() == 0 ==> export_name(args, ident) == Ok::<Seq<char>, usize>(ident),
{
    if args.len() > 0 {
        assert(args[0].name@ != "name"@);
    }
}

/// With the name argument as the only argument, the declaration is exported
/// under that argument's value, whatever its variable's identifier.
pub proof fn lemma_given_name(args: Seq<NameValue>, ident: Seq<char>)
    requires
        args.len() == 1,
        args[0].name@ == "name"@,
    ensures
        export_name(args, ident) == Ok::<Seq<char>, usize>(args[0].value@),
{
}

/// An argument other than `name` makes the declaration fail, and the error
/// points at the first argument left once the first `name` argument is
/// consumed.
pub proof fn lemma_unknown_argument(args: Seq<NameValue>, ident: Seq<char>, i: int)
    requires
        0 <= i < args.len(),
        args[i].name@ != "name"@,
    ensures
        export_name(args, ident) == Err::<Seq<char>, usize>(
            if args[0].name@ == "name"@ {
                args[1].pos
            } else {
                args[0].pos
            },
        ),
{
}

/// The name argument is consumed once: a second one is refused as unknown,
/// and when the two are the only arguments the error points at the second.
pub proof fn lemma_repeated_name(args: Seq<NameValue>, ident: Seq<char>, i: int, j: int)
    requires
        0 <= i < j < args.len(),
        args[i].name@ == "name"@,
        args[j].name@ == "name"@,
    ensures
        export_name(args, ident) is Err,
        args.len() == 2 ==> export_name(args, ident) == Err::<Seq<char>, usize>(args[1].pos),
{
}

} // verus!
