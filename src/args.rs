//! The arguments of the map annotation: a comma-separated list of
//! `identifier = "string"` pairs, and the rules by which they are consumed.
use vstd::prelude::*;

verus! {

/// One token of an annotation's argument list, as the tokenizer hands it over.
pub enum ArgToken {
    /// An identifier, by its text.
    Ident(String),
    /// The `=` punctuation.
    Eq,
    /// The `,` punctuation.
    Comma,
    /// A literal token, not yet read.
    Lit(proc_macro2::Literal),
    /// A string literal, by the text it denotes.
    Str(String),
    /// Any other token.
    Other,
}

/// One `name = "value"` argument, with its ordinal position in the list.
pub struct NameValue {
    pub name: String,
    pub value: String,
    pub pos: usize,
}

/// The arguments of one annotation, in source order.
pub struct Args {
    pub args: Vec<NameValue>,
}

/// Why the arguments were refused.
#[derive(Debug, PartialEq, Eq, Structural)]
pub enum ArgsError {
    /// The token at this index (or the end of the list, at its length) does
    /// not fit the argument grammar.
    Malformed { at: usize },
    /// The argument at this position is not one the annotation recognizes.
    Unknown { pos: usize },
}

/// The role that the token at index `i` of a well-formed list plays: every
/// argument takes four slots, identifier, `=`, string, `,`.
pub open spec fn fits_slot(t: ArgToken, i: int) -> bool {
    if i % 4 == 0 {
        t is Ident
    } else if i % 4 == 1 {
        t is Eq
    } else if i % 4 == 2 {
        t is Str
    } else {
        t is Comma
    }
}

/// A list ends after a complete argument, with or without a trailing comma.
pub open spec fn ends_well(n: int) -> bool {
    n % 4 == 0 || n % 4 == 3
}

pub open spec fn well_formed(toks: Seq<ArgToken>) -> bool {
    &&& ends_well(toks.len() as int)
    &&& forall|i: int| 0 <= i < toks.len() ==> fits_slot(#[trigger] toks[i], i)
}

/// The number of arguments in a well-formed list of `n` tokens.
pub open spec fn arg_count(n: int) -> int {
    (n + 1) / 4
}

pub open spec fn ident_text(t: ArgToken) -> Seq<char> {
    match t {
        ArgToken::Ident(s) => s@,
        _ => Seq::empty(),
    }
}

pub open spec fn str_text(t: ArgToken) -> Seq<char> {
    match t {
        ArgToken::Str(s) => s@,
        _ => Seq::empty(),
    }
}

/// A token with its literal read: a literal becomes a string (the text a
/// string literal denotes) or a token outside the grammar; every other token
/// is kept.
pub open spec fn decoded(t: ArgToken, r: ArgToken) -> bool {
    match t {
        ArgToken::Lit(_) => r is Str || r is Other,
        ArgToken::Ident(s) => r is Ident && ident_text(r) == s@,
        ArgToken::Str(s) => r is Str && str_text(r) == s@,
        ArgToken::Eq => r is Eq,
        ArgToken::Comma => r is Comma,
        ArgToken::Other => r is Other,
    }
}

/// `args` holds, in order, the arguments that the well-formed `toks` spell.
pub open spec fn spells(toks: Seq<ArgToken>, args: Seq<NameValue>) -> bool {
    &&& args.len() == arg_count(toks.len() as int)
    &&& forall|k: int|
        0 <= k < args.len() ==> {
            &&& (#[trigger] args[k]).name@ == ident_text(toks[4 * k])
            &&& args[k].value@ == str_text(toks[4 * k + 2])
            &&& args[k].pos == k
        }
}

/// `at` is the first index at which `toks` leaves the grammar.
pub open spec fn first_misfit(toks: Seq<ArgToken>, at: int) -> bool {
    &&& 0 <= at <= toks.len()
    &&& forall|i: int| 0 <= i < at ==> fits_slot(#[trigger] toks[i], i)
    &&& at < toks.len() ==> !fits_slot(toks[at], at)
}

#[verifier::external_type_specification]
#[verifier::external_body]
pub struct ExLiteral(proc_macro2::Literal);

/// Relies on `syn::Lit::new` to tell a string literal token from the other
/// literals, and on `syn::LitStr::value` for the text it denotes. The
/// token's text comes from whichever lexer produced it (the compiler's
/// inside a procedural macro, proc-macro2's own elsewhere), so nothing is
/// promised of the result.
#[verifier::external_body]
fn decode_str_literal(lit: &proc_macro2::Literal) -> (r: Option<String>) {
    match syn::Lit::new(lit.clone()) {
        syn::Lit::Str(s) => Some(s.value()),
        _ => None,
    }
}

/// Whether the token at index `i` fits the grammar, and the text it carries
/// when it is an identifier or a string literal.
fn read_slot(t: &ArgToken, i: usize) -> (r: Option<String>)
    ensures
        r is Some == fits_slot(*t, i as int),
        r is Some && t is Ident ==> r->0@ == ident_text(*t),
        r is Some && t is Str ==> r->0@ == str_text(*t),
{
    match t {
        ArgToken::Ident(s) => if i % 4 == 0 {
            Some(s.clone())
        } else {
            None
        },
        ArgToken::Eq => if i % 4 == 1 {
            Some(String::new())
        } else {
            None
        },
        ArgToken::Str(s) => if i % 4 == 2 {
            Some(s.clone())
        } else {
            None
        },
        ArgToken::Comma => if i % 4 == 3 {
            Some(String::new())
        } else {
            None
        },
        ArgToken::Other | ArgToken::Lit(_) => None,
    }
}

fn decode_token(t: &ArgToken) -> (r: ArgToken)
    ensures
        decoded(*t, r),
{
    match t {
        ArgToken::Lit(lit) => match decode_str_literal(lit) {
            Some(v) => ArgToken::Str(v),
            None => ArgToken::Other,
        },
        ArgToken::Ident(s) => ArgToken::Ident(s.clone()),
        ArgToken::Str(s) => ArgToken::Str(s.clone()),
        ArgToken::Eq => ArgToken::Eq,
        ArgToken::Comma => ArgToken::Comma,
        ArgToken::Other => ArgToken::Other,
    }
}

/// Reads every literal of the list: string literals become the text they
/// denote, other literals tokens outside the grammar.
pub fn decode_literals(toks: &Vec<ArgToken>) -> (r: Vec<ArgToken>)
    ensures
        r@.len() == toks@.len(),
        forall|i: int| 0 <= i < toks@.len() ==> decoded(#[trigger] toks@[i], r@[i]),
{
    let mut r: Vec<ArgToken> = Vec::new();
    let mut i: usize = 0;
    while i < toks.len()
        invariant
            0 <= i <= toks@.len(),
            r@.len() == i,
            forall|j: int| 0 <= j < i ==> decoded(#[trigger] toks@[j], r@[j]),
        decreases toks@.len() - i,
    {
        r.push(decode_token(&toks[i]));
        i = i + 1;
    }
    r
}

impl Args {
    /// Reads the argument list from its tokens, left to right.
    pub fn parse(toks: &Vec<ArgToken>) -> (r: Result<Args, ArgsError>)
        ensures
            match r {
                Ok(a) => well_formed(toks@) && spells(toks@, a.args@),
                Err(ArgsError::Malformed { at }) => !well_formed(toks@) && first_misfit(
                    toks@,
                    at as int,
                ),
                Err(ArgsError::Unknown { .. }) => false,
            },
    {
        let n = toks.len();
        let mut i: usize = 0;
        while i < n
            invariant
                n == toks@.len(),
                0 <= i <= n,
                forall|j: int| 0 <= j < i ==> fits_slot(#[trigger] toks@[j], j),
            decreases n - i,
        {
            if read_slot(&toks[i], i).is_none() {
                return Err(ArgsError::Malformed { at: i });
            }
            i = i + 1;
        }
        if n % 4 == 1 || n % 4 == 2 {
            return Err(ArgsError::Malformed { at: n });
        }
        let count: usize = n / 4 + if n % 4 == 3 { 1 } else { 0 };
        let mut args: Vec<NameValue> = Vec::new();
        let mut k: usize = 0;
        while k < count
            invariant
                n == toks@.len(),
                ends_well(n as int),
                count == arg_count(n as int),
                well_formed(toks@),
                0 <= k <= count,
                args@.len() == k,
                forall|m: int|
                    0 <= m < k ==> {
                        &&& (#[trigger] args@[m]).name@ == ident_text(toks@[4 * m])
                        &&& args@[m].value@ == str_text(toks@[4 * m + 2])
                        &&& args@[m].pos == m
                    },
            decreases count - k,
        {
            assert(fits_slot(toks@[4 * k as int], 4 * k as int));
            assert(fits_slot(toks@[4 * k as int + 2], 4 * k as int + 2));
            let name = read_slot(&toks[4 * k], 4 * k).unwrap();
            let value = read_slot(&toks[4 * k + 2], 4 * k + 2).unwrap();
            args.push(NameValue { name, value, pos: k });
            k = k + 1;
        }
        Ok(Args { args })
    }
}

/// `k` is the index of the first argument called `name`.
pub open spec fn is_first_named(s: Seq<NameValue>, name: Seq<char>, k: int) -> bool {
    &&& 0 <= k < s.len()
    &&& s[k].name@ == name
    &&& forall|j: int| 0 <= j < k ==> (#[trigger] s[j]).name@ != name
}

pub open spec fn has_named(s: Seq<NameValue>, name: Seq<char>) -> bool {
    exists|k: int| 0 <= k < s.len() && (#[trigger] s[k]).name@ == name
}

/// The index of the first argument called `name`, where there is one.
pub open spec fn first_named(s: Seq<NameValue>, name: Seq<char>) -> int {
    choose|k: int| is_first_named(s, name, k)
}

/// The name of the one argument the annotation recognizes.
pub open spec fn name_key() -> Seq<char> {
    "name"@
}

/// What resolving the name argument gives: nothing supplied, the supplied
/// value, or the position of the first argument that is left over.
pub open spec fn resolve_name(s: Seq<NameValue>) -> Result<Option<Seq<char>>, usize> {
    if s.len() == 0 {
        Ok(None)
    } else if s.len() == 1 && s[0].name@ == name_key() {
        Ok(Some(s[0].value@))
    } else if s[0].name@ == name_key() {
        Err(s[1].pos)
    } else {
        Err(s[0].pos)
    }
}

/// Removes the first argument called `name` and returns its value.
pub fn pop_arg(args: &mut Args, name: &str) -> (r: Option<String>)
    ensures
        match r {
            None => !has_named(old(args).args@, name@) && final(args).args@ == old(
                args,
            ).args@,
            Some(v) => {
                let k = first_named(old(args).args@, name@);
                &&& is_first_named(old(args).args@, name@, k)
                &&& v@ == old(args).args@[k].value@
                &&& final(args).args@ == old(args).args@.remove(k)
            },
        },
{
    let key = name.to_owned();
    let n = args.args.len();
    let mut i: usize = 0;
    while i < n
        invariant
            n == args.args@.len(),
            args.args@ == old(args).args@,
            key@ == name@,
            0 <= i <= n,
            forall|j: int| 0 <= j < i ==> (#[trigger] args.args@[j]).name@ != name@,
        decreases n - i,
    {
        if args.args[i].name.eq(&key) {
            proof {
                let s = old(args).args@;
                assert(is_first_named(s, name@, i as int));
                let k = first_named(s, name@);
                if k < i {
                    assert(s[k].name@ != name@);
                } else if k > i {
                    assert(s[i as int].name@ != name@);
                }
            }
            let arg = args.args.remove(i);
            return Some(arg.value);
        }
        i = i + 1;
    }
    None
}

/// Fails on the first argument that is left, if any.
pub fn err_on_unknown_args(args: &Args) -> (r: Result<(), ArgsError>)
    ensures
        args.args@.len() == 0 ==> r is Ok,
        args.args@.len() > 0 ==> r == Err::<(), ArgsError>(
            ArgsError::Unknown { pos: args.args@[0].pos },
        ),
{
    if args.args.len() > 0 {
        return Err(ArgsError::Unknown { pos: args.args[0].pos });
    }
    Ok(())
}

/// Consumes the name argument, then refuses any argument that is left.
pub fn name_arg(args: &mut Args) -> (r: Result<Option<String>, ArgsError>)
    ensures
        has_named(old(args).args@, "name"@) ==> final(args).args@ == old(args).args@.remove(
            first_named(old(args).args@, "name"@),
        ),
        !has_named(old(args).args@, "name"@) ==> final(args).args@ == old(args).args@,
        match (r, resolve_name(old(args).args@)) {
            (Ok(None), Ok(None)) => true,
            (Ok(Some(v)), Ok(Some(w))) => v@ == w,
            (Err(ArgsError::Unknown { pos }), Err(p)) => pos == p,
            _ => false,
        },
{
    proof {
        reveal_strlit("name");
    }
    let name = pop_arg(args, "name");
    proof {
        let s = old(args).args@;
        if s.len() > 0 && s[0].name@ == name_key() {
            assert(has_named(s, "name"@));
            assert(is_first_named(s, "name"@, 0));
        }
        if name is Some {
            let k = first_named(s, "name"@);
            if k > 0 {
                assert(s[0].name@ != "name"@);
            }
        } else if s.len() > 0 {
            assert(s[0].name@ != "name"@);
        }
    }
    err_on_unknown_args(args)?;
    Ok(name)
}

} // verus!
