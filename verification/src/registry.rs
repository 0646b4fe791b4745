//! The capability registry: the process-wide, read-only set of callable
//! operations.
//!
//! Built once at startup, never mutated afterwards; identity of a capability
//! is its name, and no two registered capabilities share one.

use crate::schema::Schema;
use crate::schema::SchemaV;
use vstd::prelude::*;

verus! {

/// Which strongly-typed handler a capability routes to.
#[derive(Clone, Copy, PartialEq, Eq, Structural, Debug)]
pub enum ToolId {
    Weather,
    LocalTime,
}

/// One named, independently invocable operation with its declared input
/// schema. Immutable once registered.
pub struct Capability {
    pub name: String,
    pub description: String,
    pub input_schema: Schema,
    pub tool: ToolId,
}

/// Mathematical image of a [`Capability`].
pub struct CapabilityV {
    pub name: Seq<char>,
    pub description: Seq<char>,
    pub input_schema: SchemaV,
    pub tool: ToolId,
}

impl View for Capability {
    type V = CapabilityV;

    open spec fn view(&self) -> CapabilityV {
        CapabilityV {
            name: self.name@,
            description: self.description@,
            input_schema: self.input_schema@,
            tool: self.tool,
        }
    }
}

impl DeepView for Capability {
    type V = CapabilityV;

    open spec fn deep_view(&self) -> CapabilityV {
        self.view()
    }
}

/// What introspection exposes of one capability.
pub struct CapabilityInfo {
    pub name: String,
    pub description: String,
    pub input_schema: Schema,
}

/// Mathematical image of a [`CapabilityInfo`].
pub struct CapabilityInfoV {
    pub name: Seq<char>,
    pub description: Seq<char>,
    pub input_schema: SchemaV,
}

impl View for CapabilityInfo {
    type V = CapabilityInfoV;

    open spec fn view(&self) -> CapabilityInfoV {
        CapabilityInfoV {
            name: self.name@,
            description: self.description@,
            input_schema: self.input_schema@,
        }
    }
}

impl DeepView for CapabilityInfo {
    type V = CapabilityInfoV;

    open spec fn deep_view(&self) -> CapabilityInfoV {
        self.view()
    }
}

/// The introspection entry a capability gives rise to.
pub open spec fn spec_info_of(cap: CapabilityV) -> CapabilityInfoV {
    CapabilityInfoV { name: cap.name, description: cap.description, input_schema: cap.input_schema }
}

/// The first capability in `caps` named `name`, if any.
pub open spec fn spec_find(caps: Seq<CapabilityV>, name: Seq<char>) -> Option<CapabilityV>
    decreases caps.len(),
{
    if caps.len() == 0 {
        None
    } else if caps[0].name == name {
        Some(caps[0])
    } else {
        spec_find(caps.skip(1), name)
    }
}

/// Whether some capability in `caps` is named `name`.
pub open spec fn spec_contains_name(caps: Seq<CapabilityV>, name: Seq<char>) -> bool {
    exists|i: int| 0 <= i < caps.len() && (#[trigger] caps[i].name) == name
}

/// `spec_find` succeeds exactly on registered names, and what it returns is
/// an element of the registry carrying the requested name.
pub proof fn lemma_find_props(caps: Seq<CapabilityV>, name: Seq<char>)
    ensures
        match spec_find(caps, name) {
            Some(c) => c.name == name && exists|i: int|
                0 <= i < caps.len() && #[trigger] caps[i] == c,
            None => !spec_contains_name(caps, name),
        },
    decreases caps.len(),
{
    if caps.len() > 0 {
        if caps[0].name == name {
        } else {
            lemma_find_props(caps.skip(1), name);
            match spec_find(caps.skip(1), name) {
                Some(c) => {
                    let i = choose|i: int|
                        0 <= i < caps.skip(1).len() && #[trigger] caps.skip(1)[i] == c;
                    assert(caps[i + 1] == c);
                },
                None => {
                    assert forall|i: int|
                        0 <= i < caps.len() implies (#[trigger] caps[i].name) != name by {
                        if i > 0 {
                            assert(caps.skip(1)[i - 1] == caps[i]);
                        }
                    }
                },
            }
        }
    }
}

/// The registry of capabilities. Its one invariant: names are unique.
pub struct Registry {
    caps: Vec<Capability>,
}

impl View for Registry {
    type V = Seq<CapabilityV>;

    closed spec fn view(&self) -> Seq<CapabilityV> {
        self.caps.deep_view()
    }
}

impl Registry {
    /// Well-formedness: no two registered capabilities share a name.
    pub open spec fn wf(self) -> bool {
        forall|i: int, j: int|
            0 <= i < j < self@.len() ==> (#[trigger] self@[i].name) != (#[trigger] self@[j].name)
    }

    /// An empty registry.
    pub fn new() -> (r: Registry)
        ensures
            r@ == Seq::<CapabilityV>::empty(),
            r.wf(),
    {
        let r = Registry { caps: Vec::new() };
        proof {
            assert(r@ =~= Seq::<CapabilityV>::empty());
        }
        r
    }

    /// Register one capability. Registering a name twice is a startup-time
    /// fault, excluded by precondition rather than handled at runtime.
    pub fn register(&mut self, cap: Capability)
        requires
            !spec_contains_name(old(self)@, cap@.name),
        ensures
            final(self)@ == old(self)@.push(cap@),
            old(self).wf() ==> final(self).wf(),
    {
        let ghost oldv = self@;
        self.caps.push(cap);
        proof {
            assert(self@ =~= oldv.push(cap@));
            if Registry::wf(Registry { caps: old(self).caps }) {
                assert forall|i: int, j: int| 0 <= i < j < self@.len() implies (
                #[trigger] self@[i].name) != (#[trigger] self@[j].name) by {
                    if j == oldv.len() {
                        assert(self@[i] == oldv[i]);
                    } else {
                        assert(self@[i] == oldv[i]);
                        assert(self@[j] == oldv[j]);
                    }
                }
            }
        }
    }

    /// Look a capability up by exact, case-sensitive name match.
    pub fn lookup<'a>(&'a self, name: &String) -> (r: Option<&'a Capability>)
        ensures
            match r {
                Some(c) => spec_find(self@, name@) == Some(c@),
                None => spec_find(self@, name@) is None,
            },
    {
        let ghost capsv = self@;
        let mut i: usize = 0;
        assert(capsv.skip(0) =~= capsv);
        while i < self.caps.len()
            invariant
                capsv == self@,
                capsv.len() == self.caps@.len(),
                0 <= i <= self.caps@.len(),
                spec_find(capsv, name@) == spec_find(capsv.skip(i as int), name@),
            decreases self.caps@.len() - i,
        {
            assert(capsv.skip(i as int)[0] == capsv[i as int]);
            assert(capsv[i as int] == self.caps@[i as int]@);
            if self.caps[i].name == *name {
                return Some(&self.caps[i]);
            }
            assert(capsv.skip(i as int).skip(1) =~= capsv.skip(i as int + 1));
            i = i + 1;
        }
        None
    }

    /// The names of the registered capabilities, in registration order.
    pub fn tool_names(&self) -> (r: Vec<String>)
        ensures
            r.deep_view() == self@.map_values(|c: CapabilityV| c.name),
    {
        let mut r: Vec<String> = Vec::new();
        let mut i: usize = 0;
        while i < self.caps.len()
            invariant
                0 <= i <= self.caps@.len(),
                self@.len() == self.caps@.len(),
                r@.len() == i,
                forall|j: int| 0 <= j < i ==> (#[trigger] r@[j]@) == self@[j].name,
            decreases self.caps@.len() - i,
        {
            proof {
                assert(self@[i as int] == self.caps@[i as int]@);
            }
            r.push(self.caps[i].name.clone());
            i = i + 1;
        }
        proof {
            assert(r.deep_view() =~= self@.map_values(|c: CapabilityV| c.name));
        }
        r
    }

    /// List every registered capability for introspection, in registration
    /// order, one entry per capability.
    pub fn list(&self) -> (r: Vec<CapabilityInfo>)
        ensures
            r@.len() == self@.len(),
            forall|i: int|
                0 <= i < r@.len() ==> (#[trigger] r.deep_view()[i]) == spec_info_of(self@[i]),
    {
        let mut r: Vec<CapabilityInfo> = Vec::new();
        let mut i: usize = 0;
        while i < self.caps.len()
            invariant
                0 <= i <= self.caps@.len(),
                self@.len() == self.caps@.len(),
                r@.len() == i,
                forall|j: int| 0 <= j < i ==> (#[trigger] r@[j]@) == spec_info_of(self@[j]),
            decreases self.caps@.len() - i,
        {
            let cap = &self.caps[i];
            proof {
                assert(self@[i as int] == self.caps@[i as int]@);
            }
            r.push(
                CapabilityInfo {
                    name: cap.name.clone(),
                    description: cap.description.clone(),
                    input_schema: cap.input_schema.clone(),
                },
            );
            i = i + 1;
        }
        proof {
            assert forall|i: int| 0 <= i < r@.len() implies (#[trigger] r.deep_view()[i])
                == spec_info_of(self@[i]) by {
                assert(r.deep_view()[i] == r@[i]@);
            }
        }
        r
    }
}

/// Law: introspection returns each registered capability exactly once — the
/// listing corresponds index for index to the registry, in registration
/// order, and no name appears at two indices.
pub proof fn lemma_list_exactly_once(reg: Registry, infos: Seq<CapabilityInfoV>)
    requires
        reg.wf(),
        infos.len() == reg@.len(),
        forall|i: int| 0 <= i < infos.len() ==> (#[trigger] infos[i]) == spec_info_of(reg@[i]),
    ensures
        forall|i: int, j: int|
            0 <= i < j < infos.len() ==> (#[trigger] infos[i].name) != (#[trigger] infos[j].name),
{
    assert forall|i: int, j: int| 0 <= i < j < infos.len() implies (#[trigger] infos[i].name) != (
    #[trigger] infos[j].name) by {
        assert(infos[i] == spec_info_of(reg@[i]));
        assert(infos[j] == spec_info_of(reg@[j]));
    }
}

} // verus!
