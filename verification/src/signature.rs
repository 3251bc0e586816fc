//! The arguments of a kernel as its versions and its dispatcher need them: every
//! argument under a name, so that it can be handed on, and the types alone, for the
//! type of a pointer to a version.

use vstd::prelude::*;
use vstd::string::StringExecFns;

verus! {

/// One argument of a function.
#[derive(Debug, PartialEq, Eq)]
pub enum Argument {
    /// The receiver, `self`.
    Receiver,
    /// An argument bound to a plain name, with the text of its type.
    Named { name: String, ty: String },
    /// An argument bound by any other pattern, with the text of its type.
    Pattern { ty: String },
}

/// Why a function has no pointer type.
#[derive(Debug, PartialEq, Eq)]
pub enum SignatureError {
    /// The function has a receiver, whose type cannot be determined.
    AssociatedFn,
}

/// The decimal digit `d`.
pub open spec fn digit_text(d: nat) -> Seq<char> {
    if d == 0 {
        "0"@
    } else if d == 1 {
        "1"@
    } else if d == 2 {
        "2"@
    } else if d == 3 {
        "3"@
    } else if d == 4 {
        "4"@
    } else if d == 5 {
        "5"@
    } else if d == 6 {
        "6"@
    } else if d == 7 {
        "7"@
    } else if d == 8 {
        "8"@
    } else {
        "9"@
    }
}

/// The number in decimal notation.
pub open spec fn decimal_text(n: nat) -> Seq<char>
    decreases n,
{
    if n < 10 {
        digit_text(n)
    } else {
        decimal_text(n / 10) + digit_text(n % 10)
    }
}

/// The name given to the argument at place `index` where it has none of its own.
pub open spec fn placeholder(index: nat) -> Seq<char> {
    "__multiversion_arg_"@ + decimal_text(index)
}

/// The name under which the argument at place `index` is handed on.
pub open spec fn handed_on(argument: Argument, index: nat) -> Seq<char> {
    match argument {
        Argument::Receiver => "self"@,
        Argument::Named { name, .. } => name@,
        Argument::Pattern { .. } => placeholder(index),
    }
}

/// The argument at place `index` with a name of its own.
pub open spec fn is_normalized(argument: Argument, index: nat, r: Argument) -> bool {
    match argument {
        Argument::Receiver => r == Argument::Receiver,
        Argument::Named { name, ty } => r matches Argument::Named { name: n, ty: t } && n@ == name@
            && t@ == ty@,
        Argument::Pattern { ty } => r matches Argument::Named { name: n, ty: t } && n@
            == placeholder(index) && t@ == ty@,
    }
}

/// The text of the type of an argument that is no receiver.
pub open spec fn type_text(argument: Argument) -> Seq<char> {
    match argument {
        Argument::Receiver => Seq::empty(),
        Argument::Named { ty, .. } => ty@,
        Argument::Pattern { ty } => ty@,
    }
}

fn digit(d: usize) -> (r: &'static str)
    requires
        d < 10,
    ensures
        r@ == digit_text(d as nat),
{
    if d == 0 {
        "0"
    } else if d == 1 {
        "1"
    } else if d == 2 {
        "2"
    } else if d == 3 {
        "3"
    } else if d == 4 {
        "4"
    } else if d == 5 {
        "5"
    } else if d == 6 {
        "6"
    } else if d == 7 {
        "7"
    } else if d == 8 {
        "8"
    } else {
        "9"
    }
}

/// The number in decimal notation.
pub fn decimal(n: usize) -> (r: String)
    ensures
        r@ == decimal_text(n as nat),
    decreases n,
{
    if n < 10 {
        String::from_str(digit(n))
    } else {
        let mut text = decimal(n / 10);
        text.append(digit(n % 10));
        text
    }
}

/// The name of a lifetime inside the type of a pointer to a version, where it must not
/// meet a lifetime of the same name outside.
pub fn rename_lifetime(name: &str) -> (r: String)
    ensures
        r@ == "__mv_inner_"@ + name@,
{
    let mut text = String::from_str("__mv_inner_");
    text.append(name);
    text
}

/// The expressions that hand the arguments of a function on to another: for each
/// argument its name. Every argument has to have one.
pub fn arg_exprs(arguments: &Vec<Argument>) -> (r: Vec<String>)
    requires
        forall|i: int| 0 <= i < arguments.len() ==> !(arguments[i] is Pattern),
    ensures
        r.len() == arguments.len(),
        forall|i: int|
            0 <= i < arguments.len() ==> (#[trigger] r[i])@ == handed_on(arguments[i], i as nat),
{
    let mut names: Vec<String> = Vec::new();
    let mut i: usize = 0;
    while i < arguments.len()
        invariant
            i <= arguments.len(),
            names.len() == i,
            forall|j: int| 0 <= j < arguments.len() ==> !(arguments[j] is Pattern),
            forall|j: int|
                0 <= j < i ==> (#[trigger] names[j])@ == handed_on(arguments[j], j as nat),
        decreases arguments.len() - i,
    {
        match &arguments[i] {
            Argument::Receiver => names.push(String::from_str("self")),
            Argument::Named { name, .. } => names.push(name.clone()),
            Argument::Pattern { .. } => {
                assert(false);
            },
        }
        i = i + 1;
    }
    names
}

/// Gives every argument a name: an argument that is bound by a pattern is bound to a
/// name made from its place instead. Returns the arguments so named and the
/// expressions that hand them on.
pub fn normalize_signature(arguments: &Vec<Argument>) -> (r: (Vec<Argument>, Vec<String>))
    ensures
        r.0.len() == arguments.len(),
        r.1.len() == arguments.len(),
        forall|i: int|
            0 <= i < arguments.len() ==> is_normalized(arguments[i], i as nat, #[trigger] r.0[i]),
        forall|i: int|
            0 <= i < arguments.len() ==> (#[trigger] r.1[i])@ == handed_on(arguments[i], i as nat),
{
    let mut named: Vec<Argument> = Vec::new();
    let mut i: usize = 0;
    while i < arguments.len()
        invariant
            i <= arguments.len(),
            named.len() == i,
            forall|j: int|
                0 <= j < i ==> is_normalized(arguments[j], j as nat, #[trigger] named[j]),
        decreases arguments.len() - i,
    {
        match &arguments[i] {
            Argument::Receiver => named.push(Argument::Receiver),
            Argument::Named { name, ty } => named.push(
                Argument::Named { name: name.clone(), ty: ty.clone() },
            ),
            Argument::Pattern { ty } => {
                let mut name = String::from_str("__multiversion_arg_");
                let place = decimal(i);
                name.append(place.as_str());
                named.push(Argument::Named { name, ty: ty.clone() });
            },
        }
        i = i + 1;
    }
    assert forall|j: int| 0 <= j < named.len() implies !(named[j] is Pattern) by {
        assert(is_normalized(arguments[j], j as nat, named[j]));
    }
    let callable = arg_exprs(&named);
    assert forall|j: int| 0 <= j < arguments.len() implies (#[trigger] callable[j])@ == handed_on(
        arguments[j],
        j as nat,
    ) by {
        assert(is_normalized(arguments[j], j as nat, named[j]));
    }
    (named, callable)
}

/// The types of the arguments, for the type of a pointer to the function. A function
/// with a receiver has no such type.
pub fn fn_type_from_signature(arguments: &Vec<Argument>) -> (r: Result<Vec<String>, SignatureError>)
    ensures
        r.is_err() == (exists|i: int| 0 <= i < arguments.len() && arguments[i] is Receiver),
        r matches Ok(types) ==> {
            &&& types.len() == arguments.len()
            &&& forall|i: int|
                0 <= i < arguments.len() ==> (#[trigger] types[i])@ == type_text(arguments[i])
        },
        r matches Err(e) ==> e == SignatureError::AssociatedFn,
{
    let mut types: Vec<String> = Vec::new();
    let mut i: usize = 0;
    while i < arguments.len()
        invariant
            i <= arguments.len(),
            types.len() == i,
            forall|j: int| 0 <= j < i ==> !(arguments[j] is Receiver),
            forall|j: int| 0 <= j < i ==> (#[trigger] types[j])@ == type_text(arguments[j]),
        decreases arguments.len() - i,
    {
        match &arguments[i] {
            Argument::Receiver => {
                return Err(SignatureError::AssociatedFn);
            },
            Argument::Named { ty, .. } => types.push(ty.clone()),
            Argument::Pattern { ty } => types.push(ty.clone()),
        }
        i = i + 1;
    }
    Ok(types)
}

} // verus!
