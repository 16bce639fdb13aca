use vstd::prelude::*;
use crate::error::ToolError;
use crate::tools::ToolDescriptor;

verus! {

/// The tools available to the agent, each under a name of its own.
///
/// The descriptors are held in a vector whose names are distinct (the type
/// invariant): vstd specifies `HashMap` lookups and inserts only for keys
/// that obey its hash-table key model, which it states for integer and
/// `bool` keys and not for `String`.
pub struct ToolRegistry {
    tools: Vec<ToolDescriptor>,
}

/// No two descriptors of `s` share a name.
pub open spec fn names_unique(s: Seq<ToolDescriptor>) -> bool {
    forall|i: int, j: int|
        0 <= i < s.len() && 0 <= j < s.len() && i != j ==> #[trigger] s[i].name@ != #[trigger] s[j].name@
}

/// The descriptors of `s` by name, a later one winning over an earlier one
/// of the same name.
pub open spec fn descriptor_map(s: Seq<ToolDescriptor>) -> Map<Seq<char>, ToolDescriptor>
    decreases s.len(),
{
    if s.len() == 0 {
        Map::empty()
    } else {
        descriptor_map(s.drop_last()).insert(s.last().name@, s.last())
    }
}

/// The registry of tools `m` after registering `d`: unchanged where the
/// name of `d` is taken, else with `d` added under its name.
pub open spec fn registered(m: Map<Seq<char>, ToolDescriptor>, d: ToolDescriptor) -> Map<Seq<char>, ToolDescriptor> {
    if m.contains_key(d.name@) {
        m
    } else {
        m.insert(d.name@, d)
    }
}

/// The descriptor registered under `name` in `m`, if any.
pub open spec fn lookup(m: Map<Seq<char>, ToolDescriptor>, name: Seq<char>) -> Option<ToolDescriptor> {
    if m.contains_key(name) {
        Some(m[name])
    } else {
        None
    }
}

/// The message of the conflict raised when `name` is registered twice.
pub open spec fn name_conflict_text(name: Seq<char>) -> Seq<char> {
    "Tool '"@ + name + "' already registered"@
}

impl View for ToolRegistry {
    type V = Map<Seq<char>, ToolDescriptor>;

    closed spec fn view(&self) -> Map<Seq<char>, ToolDescriptor> {
        descriptor_map(self.tools@)
    }
}

/// In a sequence of descriptors with distinct names, a name is registered
/// exactly where some descriptor carries it, and maps to that descriptor.
proof fn lemma_descriptor_map(s: Seq<ToolDescriptor>, k: Seq<char>)
    requires
        names_unique(s),
    ensures
        descriptor_map(s).contains_key(k) <==> exists|i: int| 0 <= i < s.len() && #[trigger] s[i].name@ == k,
        forall|i: int| 0 <= i < s.len() && #[trigger] s[i].name@ == k ==> descriptor_map(s)[k] == s[i],
    decreases s.len(),
{
    if s.len() > 0 {
        let t = s.drop_last();
        assert(names_unique(t)) by {
            assert forall|i: int, j: int| 0 <= i < t.len() && 0 <= j < t.len() && i != j implies #[trigger] t[i].name@
                != #[trigger] t[j].name@ by {
                assert(t[i] == s[i] && t[j] == s[j]);
            }
        }
        lemma_descriptor_map(t, k);
        if descriptor_map(s).contains_key(k) && k != s.last().name@ {
            let i = choose|i: int| 0 <= i < t.len() && #[trigger] t[i].name@ == k;
            assert(s[i] == t[i]);
        }
        if exists|i: int| 0 <= i < s.len() && #[trigger] s[i].name@ == k {
            let i = choose|i: int| 0 <= i < s.len() && #[trigger] s[i].name@ == k;
            if i < s.len() - 1 {
                assert(t[i] == s[i]);
            }
        }
        assert forall|i: int| 0 <= i < s.len() && #[trigger] s[i].name@ == k implies descriptor_map(s)[k]
            == s[i] by {
            if i < s.len() - 1 {
                assert(t[i] == s[i]);
                assert(s[i].name@ != s[s.len() - 1].name@);
            }
        }
    }
}

/// In a sequence of descriptors with distinct names, there are exactly as
/// many registered names as descriptors.
proof fn lemma_descriptor_count(s: Seq<ToolDescriptor>)
    requires
        names_unique(s),
    ensures
        descriptor_map(s).dom().finite(),
        descriptor_map(s).dom().len() == s.len(),
    decreases s.len(),
{
    if s.len() > 0 {
        let t = s.drop_last();
        assert(names_unique(t)) by {
            assert forall|i: int, j: int| 0 <= i < t.len() && 0 <= j < t.len() && i != j implies #[trigger] t[i].name@
                != #[trigger] t[j].name@ by {
                assert(t[i] == s[i] && t[j] == s[j]);
            }
        }
        lemma_descriptor_count(t);
        lemma_descriptor_map(t, s.last().name@);
        if descriptor_map(t).contains_key(s.last().name@) {
            let i = choose|i: int| 0 <= i < t.len() && #[trigger] t[i].name@ == s.last().name@;
            assert(s[i] == t[i]);
            assert(s[i].name@ != s[s.len() - 1].name@);
        }
    }
}

impl ToolRegistry {
    #[verifier::type_invariant]
    spec fn well_formed(self) -> bool {
        names_unique(self.tools@)
    }

    /// An empty registry.
    pub fn new() -> (r: Self)
        ensures
            r@ == Map::<Seq<char>, ToolDescriptor>::empty(),
    {
        ToolRegistry { tools: Vec::new() }
    }

    /// The index of the descriptor named `key`, if there is one.
    fn position(&self, key: &String) -> (r: Option<usize>)
        ensures
            r matches Some(i) ==> i < self.tools@.len() && self.tools@[i as int].name@ == key@,
            r is None ==> forall|i: int| 0 <= i < self.tools@.len() ==> #[trigger] self.tools@[i].name@ != key@,
    {
        let n = self.tools.len();
        let mut i: usize = 0;
        while i < n
            invariant
                n == self.tools@.len(),
                i <= n,
                forall|j: int| 0 <= j < i ==> #[trigger] self.tools@[j].name@ != key@,
            decreases n - i,
        {
            if self.tools[i].name == *key {
                return Some(i);
            }
            i = i + 1;
        }
        None
    }

    /// Registers `descriptor` under its name. A name that is already taken
    /// is refused with a conflict, and the registry is left as it was.
    pub fn register(&mut self, descriptor: ToolDescriptor) -> (r: Result<(), ToolError>)
        ensures
            final(self)@ == registered(old(self)@, descriptor),
            r is Err <==> old(self)@.contains_key(descriptor.name@),
            r matches Err(e) ==> (e matches ToolError::Conflict(m) && m@ == name_conflict_text(descriptor.name@)),
    {
        proof {
            use_type_invariant(&*self);
            lemma_descriptor_map(self.tools@, descriptor.name@);
        }
        let name = descriptor.name.clone();
        match self.position(&name) {
            Some(_) => {
                let mut m = String::from_str("Tool '");
                m.append(name.as_str());
                m.append("' already registered");
                Err(ToolError::Conflict(m))
            },
            None => {
                let ghost before = self.tools@;
                proof {
                    assert(names_unique(before.push(descriptor))) by {
                        let s = before.push(descriptor);
                        assert forall|i: int, j: int|
                            0 <= i < s.len() && 0 <= j < s.len() && i != j implies #[trigger] s[i].name@
                            != #[trigger] s[j].name@ by {
                            if i < before.len() {
                                assert(s[i] == before[i]);
                            }
                            if j < before.len() {
                                assert(s[j] == before[j]);
                            }
                        }
                    }
                    assert(before.push(descriptor).drop_last() =~= before);
                }
                let mut tools: Vec<ToolDescriptor> = Vec::new();
                std::mem::swap(&mut tools, &mut self.tools);
                tools.push(descriptor);
                self.tools = tools;
                Ok(())
            },
        }
    }

    /// The descriptor registered under `name`, if any.
    pub fn get(&self, name: &str) -> (r: Option<&ToolDescriptor>)
        ensures
            match r {
                Some(d) => lookup(self@, name@) == Some(*d),
                None => lookup(self@, name@) is None,
            },
    {
        proof {
            use_type_invariant(self);
            lemma_descriptor_map(self.tools@, name@);
        }
        let key = String::from_str(name);
        match self.position(&key) {
            Some(i) => Some(&self.tools[i]),
            None => None,
        }
    }

    /// Every registered descriptor, each once.
    pub fn list(&self) -> (r: Vec<&ToolDescriptor>)
        ensures
            self@.dom().finite(),
            r@.len() == self@.dom().len(),
            forall|i: int| 0 <= i < r@.len() ==> lookup(self@, (#[trigger] r@[i]).name@) == Some(*r@[i]),
            forall|k: Seq<char>| #[trigger] self@.contains_key(k) ==> exists|i: int| 0 <= i < r@.len() && (#[trigger] r@[i]).name@ == k,
            forall|i: int, j: int| 0 <= i < r@.len() && 0 <= j < r@.len() && i != j ==> (#[trigger] r@[i]).name@ != (#[trigger] r@[j]).name@,
    {
        proof {
            use_type_invariant(self);
            lemma_descriptor_count(self.tools@);
        }
        let n = self.tools.len();
        let mut r: Vec<&ToolDescriptor> = Vec::new();
        let mut i: usize = 0;
        while i < n
            invariant
                n == self.tools@.len(),
                i <= n,
                r@.len() == i,
                forall|j: int| 0 <= j < i ==> *(#[trigger] r@[j]) == self.tools@[j],
            decreases n - i,
        {
            r.push(&self.tools[i]);
            i = i + 1;
        }
        proof {
            assert forall|i: int| 0 <= i < r@.len() implies lookup(self@, (#[trigger] r@[i]).name@) == Some(*r@[i]) by {
                lemma_descriptor_map(self.tools@, r@[i].name@);
            }
            assert forall|k: Seq<char>| #[trigger] self@.contains_key(k) implies exists|i: int|
                0 <= i < r@.len() && (#[trigger] r@[i]).name@ == k by {
                lemma_descriptor_map(self.tools@, k);
                let i = choose|i: int| 0 <= i < self.tools@.len() && #[trigger] self.tools@[i].name@ == k;
                assert(r@[i].name@ == k);
            }
            assert forall|i: int, j: int| 0 <= i < r@.len() && 0 <= j < r@.len() && i != j implies (#[trigger] r@[i]).name@
                != (#[trigger] r@[j]).name@ by {
                assert(self.tools@[i].name@ != self.tools@[j].name@);
            }
        }
        r
    }
}

impl Default for ToolRegistry {
    fn default() -> (r: Self)
        ensures
            r@ == Map::<Seq<char>, ToolDescriptor>::empty(),
    {
        ToolRegistry::new()
    }
}

/// A tool registered under a free name is what a lookup of that name then
/// gives back.
pub proof fn law_register_then_get(m: Map<Seq<char>, ToolDescriptor>, d: ToolDescriptor)
    requires
        !m.contains_key(d.name@),
    ensures
        lookup(registered(m, d), d.name@) == Some(d),
{
}

/// Registering a tool leaves the lookup of every other name as it was.
pub proof fn law_register_keeps_other_names(m: Map<Seq<char>, ToolDescriptor>, d: ToolDescriptor, name: Seq<char>)
    requires
        name != d.name@,
    ensures
        lookup(registered(m, d), name) == lookup(m, name),
{
}

/// A name collision never shadows the tool registered first: registering a
/// second tool under a taken name changes nothing.
pub proof fn law_collision_keeps_first(m: Map<Seq<char>, ToolDescriptor>, d: ToolDescriptor)
    requires
        m.contains_key(d.name@),
    ensures
        registered(m, d) == m,
        lookup(registered(m, d), d.name@) == lookup(m, d.name@),
{
}

/// A successful registration adds exactly one name: the registry then lists
/// one tool more than before.
pub proof fn law_register_adds_one_name(m: Map<Seq<char>, ToolDescriptor>, d: ToolDescriptor)
    requires
        m.dom().finite(),
        !m.contains_key(d.name@),
    ensures
        registered(m, d).dom().finite(),
        registered(m, d).dom().len() == m.dom().len() + 1,
{
}

/// Registering the same tool twice succeeds once: after the first
/// registration its name is taken, so the second is refused.
pub proof fn law_second_registration_refused(m: Map<Seq<char>, ToolDescriptor>, d: ToolDescriptor)
    ensures
        registered(m, d).contains_key(d.name@),
        registered(registered(m, d), d) == registered(m, d),
{
}

} // verus!
