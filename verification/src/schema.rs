//! Structural description of a capability's expected input fields.
//!
//! A schema serves two masters: it is exposed verbatim to the client at
//! negotiation and introspection time, and it is the rule against which the
//! dispatcher validates an incoming argument payload.

use crate::args::ArgValue;
use crate::args::ArgValueV;
use crate::args::Args;
use crate::args::ArgsV;
use crate::args::spec_lookup;
use vstd::prelude::*;

verus! {

/// Description of one expected input field.
pub struct FieldSpec {
    /// Field name, matched exactly and case-sensitively.
    pub name: String,
    /// Human-readable description, exposed at introspection.
    pub description: String,
    /// Whether the payload must bind the field.
    pub required: bool,
    /// `Some(set)` for an enumerated field whose value must spell one of
    /// `set`'s members; `None` for free text.
    pub allowed: Option<Vec<String>>,
    /// Value an optional field takes when the payload omits it.
    pub default_value: Option<String>,
}

/// Mathematical image of a [`FieldSpec`].
pub struct FieldSpecV {
    pub name: Seq<char>,
    pub description: Seq<char>,
    pub required: bool,
    pub allowed: Option<Seq<Seq<char>>>,
    pub default_value: Option<Seq<char>>,
}

impl View for FieldSpec {
    type V = FieldSpecV;

    open spec fn view(&self) -> FieldSpecV {
        FieldSpecV {
            name: self.name@,
            description: self.description@,
            required: self.required,
            allowed: match self.allowed {
                Option::Some(set) => Option::Some(set.deep_view()),
                Option::None => Option::None,
            },
            default_value: match self.default_value {
                Option::Some(d) => Option::Some(d@),
                Option::None => Option::None,
            },
        }
    }
}

impl DeepView for FieldSpec {
    type V = FieldSpecV;

    open spec fn deep_view(&self) -> FieldSpecV {
        self.view()
    }
}

/// Input shape of one capability: its expected fields.
pub struct Schema {
    pub fields: Vec<FieldSpec>,
}

/// Mathematical image of a [`Schema`]: the sequence of its fields.
pub type SchemaV = Seq<FieldSpecV>;

impl View for Schema {
    type V = SchemaV;

    open spec fn view(&self) -> SchemaV {
        self.fields.deep_view()
    }
}

impl DeepView for Schema {
    type V = SchemaV;

    open spec fn deep_view(&self) -> SchemaV {
        self.view()
    }
}

/// Whether `s` spells one of the strings in `set`.
pub open spec fn spec_set_contains(set: Seq<Seq<char>>, s: Seq<char>) -> bool {
    exists|i: int| 0 <= i < set.len() && set[i] == s
}

/// Whether the payload `args` satisfies the single field description `f`:
/// a required field must be bound, and any bound value must be a string,
/// inside the allowed set when the field is enumerated.
pub open spec fn spec_field_ok(f: FieldSpecV, args: ArgsV) -> bool {
    match spec_lookup(args, f.name) {
        Option::None => !f.required,
        Option::Some(v) => match v {
            ArgValueV::Str(s) => match f.allowed {
                Option::None => true,
                Option::Some(set) => spec_set_contains(set, s),
            },
            _ => false,
        },
    }
}

/// Whether the payload `args` conforms to `schema`: every declared field is
/// satisfied. Keys the schema does not declare are ignored.
pub open spec fn spec_conforms(schema: SchemaV, args: ArgsV) -> bool {
    forall|i: int| 0 <= i < schema.len() ==> spec_field_ok(#[trigger] schema[i], args)
}

/// Decide membership of `s` in the string set `set`.
pub fn set_contains(set: &Vec<String>, s: &String) -> (b: bool)
    ensures
        b == spec_set_contains(set.deep_view(), s@),
{
    let mut i: usize = 0;
    while i < set.len()
        invariant
            0 <= i <= set@.len(),
            forall|j: int| 0 <= j < i ==> set.deep_view()[j] != s@,
        decreases set@.len() - i,
    {
        assert(set.deep_view()[i as int] == set@[i as int]@);
        if set[i] == *s {
            return true;
        }
        i = i + 1;
    }
    false
}

/// Decide whether the payload satisfies one field description.
pub fn check_field(f: &FieldSpec, args: &Args) -> (b: bool)
    ensures
        b == spec_field_ok(f@, args.deep_view()),
{
    match crate::args::lookup_arg(args, &f.name) {
        Option::None => !f.required,
        Option::Some(v) => match v {
            ArgValue::Str(s) => match &f.allowed {
                Option::None => true,
                Option::Some(set) => set_contains(set, s),
            },
            _ => false,
        },
    }
}

/// Decide whether the payload conforms to the schema.
pub fn conforms(schema: &Schema, args: &Args) -> (b: bool)
    ensures
        b == spec_conforms(schema@, args.deep_view()),
{
    let mut i: usize = 0;
    while i < schema.fields.len()
        invariant
            0 <= i <= schema.fields@.len(),
            schema@.len() == schema.fields@.len(),
            forall|j: int| 0 <= j < i ==> spec_field_ok(#[trigger] schema@[j], args.deep_view()),
        decreases schema.fields@.len() - i,
    {
        assert(schema@[i as int] == schema.fields@[i as int]@);
        if !check_field(&schema.fields[i], args) {
            return false;
        }
        i = i + 1;
    }
    true
}

/// Clone a vector of strings, element for element.
pub fn clone_strings(v: &Vec<String>) -> (r: Vec<String>)
    ensures
        r@ == v@,
        r.deep_view() == v.deep_view(),
{
    let mut r: Vec<String> = Vec::new();
    let mut i: usize = 0;
    while i < v.len()
        invariant
            0 <= i <= v@.len(),
            r@ =~= v@.subrange(0, i as int),
        decreases v@.len() - i,
    {
        r.push(v[i].clone());
        assert(r@ =~= v@.subrange(0, i as int + 1));
        i = i + 1;
    }
    assert(r@ =~= v@);
    assert(r.deep_view() =~= v.deep_view());
    r
}

impl Clone for FieldSpec {
    fn clone(&self) -> (res: Self)
        ensures
            res@ == self@,
    {
        let allowed: Option<Vec<String>> = match &self.allowed {
            Option::None => Option::None,
            Option::Some(set) => Option::Some(clone_strings(set)),
        };
        let default_value: Option<String> = match &self.default_value {
            Option::None => Option::None,
            Option::Some(d) => Option::Some(d.clone()),
        };
        FieldSpec {
            name: self.name.clone(),
            description: self.description.clone(),
            required: self.required,
            allowed,
            default_value,
        }
    }
}

impl Clone for Schema {
    fn clone(&self) -> (res: Self)
        ensures
            res@ == self@,
    {
        let mut fields: Vec<FieldSpec> = Vec::new();
        let mut i: usize = 0;
        while i < self.fields.len()
            invariant
                0 <= i <= self.fields@.len(),
                fields@.len() == i,
                forall|j: int| 0 <= j < i ==> (#[trigger] fields@[j]@) == self@[j],
            decreases self.fields@.len() - i,
        {
            let f = self.fields[i].clone();
            proof {
                assert(self@[i as int] == self.fields@[i as int]@);
            }
            fields.push(f);
            i = i + 1;
        }
        let res = Schema { fields };
        proof {
            assert forall|j: int| 0 <= j < res@.len() implies (#[trigger] res@[j]) == self@[j] by {
                assert(res@[j] == fields@[j]@);
            }
            assert(res@ =~= self@);
        }
        res
    }
}

} // verus!
