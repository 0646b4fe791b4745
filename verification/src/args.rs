//! The untyped argument payload of a tool call: a map from field names to
//! JSON-like values, carried as a vector of pairs.
//!
//! Only the dispatcher reads these; a capability handler never observes an
//! untyped value. When a name occurs twice, the first pair wins.

use vstd::prelude::*;

verus! {

/// One untyped argument value, as decoded from the wire.
pub enum ArgValue {
    Str(String),
    Int(i64),
    Bool(bool),
    Null,
}

/// Mathematical image of an [`ArgValue`]: strings become character
/// sequences.
pub enum ArgValueV {
    Str(Seq<char>),
    Int(i64),
    Bool(bool),
    Null,
}

impl View for ArgValue {
    type V = ArgValueV;

    open spec fn view(&self) -> ArgValueV {
        match self {
            ArgValue::Str(s) => ArgValueV::Str(s@),
            ArgValue::Int(i) => ArgValueV::Int(*i),
            ArgValue::Bool(b) => ArgValueV::Bool(*b),
            ArgValue::Null => ArgValueV::Null,
        }
    }
}

impl DeepView for ArgValue {
    type V = ArgValueV;

    open spec fn deep_view(&self) -> ArgValueV {
        self.view()
    }
}

impl Clone for ArgValue {
    fn clone(&self) -> (res: Self)
        ensures
            res == *self,
    {
        match self {
            ArgValue::Str(s) => ArgValue::Str(s.clone()),
            ArgValue::Int(i) => ArgValue::Int(*i),
            ArgValue::Bool(b) => ArgValue::Bool(*b),
            ArgValue::Null => ArgValue::Null,
        }
    }
}

/// The payload type: field names bound to untyped values.
pub type Args = Vec<(String, ArgValue)>;

/// Mathematical image of a payload.
pub type ArgsV = Seq<(Seq<char>, ArgValueV)>;

/// The value bound to `name` in `args`: the first pair whose key spells
/// `name`, or `None` when no pair does.
pub open spec fn spec_lookup(args: ArgsV, name: Seq<char>) -> Option<ArgValueV>
    decreases args.len(),
{
    if args.len() == 0 {
        None
    } else if args[0].0 == name {
        Some(args[0].1)
    } else {
        spec_lookup(args.skip(1), name)
    }
}

/// Find the value bound to `name`, by exact, case-sensitive match.
pub fn lookup_arg<'a>(args: &'a Args, name: &String) -> (r: Option<&'a ArgValue>)
    ensures
        match r {
            Some(v) => spec_lookup(args.deep_view(), name@) == Some(v@),
            None => spec_lookup(args.deep_view(), name@) is None,
        },
{
    let ghost argsv = args.deep_view();
    let mut i: usize = 0;
    assert(argsv.skip(0) =~= argsv);
    while i < args.len()
        invariant
            argsv == args.deep_view(),
            0 <= i <= args@.len(),
            argsv.len() == args@.len(),
            spec_lookup(argsv, name@) == spec_lookup(argsv.skip(i as int), name@),
        decreases args@.len() - i,
    {
        assert(argsv.skip(i as int)[0] == argsv[i as int]);
        assert(argsv[i as int] == (args@[i as int].0@, args@[i as int].1@));
        if args[i].0 == *name {
            return Some(&args[i].1);
        }
        assert(argsv.skip(i as int).skip(1) =~= argsv.skip(i as int + 1));
        i = i + 1;
    }
    None
}

} // verus!
