//! A component registry: the table in which the storage engine gives every
//! component type its identifier.
//!
//! The generated `component_ids` registers the types of the active fields and
//! `get_component_ids` looks them up. The registry here does what those two
//! operations ask of the storage engine's registry: registering a type is
//! idempotent, and an identifier, once given, stays with its type.
use vstd::prelude::*;
use vstd::string::StringExecFns;
use crate::text::{lemma_texts_push, texts};

verus! {

/// The identifier of a component type: the rank at which the type was
/// registered.
#[derive(Clone, Copy, Debug, PartialEq, Eq, Structural)]
pub struct ComponentId(pub usize);

/// The registered component types, in the order of their registration.
#[derive(Debug)]
pub struct ComponentRegistry {
    types: Vec<String>,
}

/// No type stands twice in the list.
pub open spec fn distinct(types: Seq<Seq<char>>) -> bool {
    forall|i: int, j: int| 0 <= i < j < types.len() ==> types[i] != types[j]
}

/// Type `ty` stands at rank `i` of the list.
pub open spec fn stands_at(types: Seq<Seq<char>>, ty: Seq<char>, i: int) -> bool {
    0 <= i < types.len() && types[i] == ty
}

/// The identifier of a type: its rank in the list, if it is registered.
pub open spec fn identifier(types: Seq<Seq<char>>, ty: Seq<char>) -> Option<nat> {
    if exists|i: int| stands_at(types, ty, i) {
        Some((choose|i: int| stands_at(types, ty, i)) as nat)
    } else {
        None
    }
}

/// The list after `ty` is registered: unchanged if the type is in it, and with
/// the type at its end otherwise.
pub open spec fn registered(types: Seq<Seq<char>>, ty: Seq<char>) -> Seq<Seq<char>> {
    if identifier(types, ty) is Some {
        types
    } else {
        types.push(ty)
    }
}

/// In a list without repetitions a type has one rank only.
pub proof fn lemma_identifier_at(types: Seq<Seq<char>>, ty: Seq<char>, i: int)
    requires
        distinct(types),
        stands_at(types, ty, i),
    ensures
        identifier(types, ty) == Some(i as nat),
{
    let c = choose|c: int| stands_at(types, ty, c);
    if c < i {
        assert(types[c] != types[i]);
    } else if i < c {
        assert(types[i] != types[c]);
    }
}

/// Registering is idempotent and keeps every identifier: the list stays without
/// repetitions, the types registered before keep their rank, and the
/// registered type has one.
pub proof fn lemma_registered(types: Seq<Seq<char>>, ty: Seq<char>)
    requires
        distinct(types),
    ensures
        distinct(registered(types, ty)),
        types.is_prefix_of(registered(types, ty)),
        identifier(registered(types, ty), ty) is Some,
        registered(registered(types, ty), ty) == registered(types, ty),
{
    let after = registered(types, ty);
    if identifier(types, ty) is Some {
    } else {
        assert forall|i: int, j: int| 0 <= i < j < after.len() implies after[i] != after[j] by {
            if j == types.len() {
                assert(!stands_at(types, ty, i));
            }
        }
        assert(stands_at(after, ty, types.len() as int));
    }
}

/// A type keeps its identifier when more types are registered behind it.
pub proof fn lemma_identifier_stable(before: Seq<Seq<char>>, after: Seq<Seq<char>>, ty: Seq<char>)
    requires
        distinct(after),
        before.is_prefix_of(after),
        identifier(before, ty) is Some,
    ensures
        identifier(after, ty) == identifier(before, ty),
{
    let i = choose|i: int| stands_at(before, ty, i);
    assert(after[i] == before[i]);
    lemma_identifier_at(after, ty, i);
}

impl View for ComponentRegistry {
    type V = Seq<Seq<char>>;

    closed spec fn view(&self) -> Seq<Seq<char>> {
        texts(self.types@)
    }
}

impl ComponentRegistry {
    /// A registry is well formed when no type is registered twice.
    pub open spec fn wf(&self) -> bool {
        distinct(self@)
    }

    /// A registry without types.
    pub fn new() -> (r: ComponentRegistry)
        ensures
            r.wf(),
            r@ == Seq::<Seq<char>>::empty(),
    {
        let r = ComponentRegistry { types: Vec::new() };
        assert(r@ =~= Seq::<Seq<char>>::empty());
        r
    }

    /// The number of registered types.
    pub fn len(&self) -> (n: usize)
        ensures
            n == self@.len(),
    {
        self.types.len()
    }

    /// Looks a type up without registering it.
    pub fn lookup(&self, ty: &str) -> (r: Option<ComponentId>)
        requires
            self.wf(),
        ensures
            match r {
                Some(id) => identifier(self@, ty@) == Some(id.0 as nat),
                None => identifier(self@, ty@) is None,
            },
    {
        let key = String::from_str(ty);
        let mut i: usize = 0;
        while i < self.types.len()
            invariant
                i <= self.types.len(),
                key@ == ty@,
                self.wf(),
                forall|j: int| 0 <= j < i ==> !stands_at(self@, ty@, j),
            decreases self.types.len() - i,
        {
            assert(self@[i as int] == self.types@[i as int]@);
            if self.types[i] == key {
                proof {
                    lemma_identifier_at(self@, ty@, i as int);
                }
                return Some(ComponentId(i));
            }
            i += 1;
        }
        None
    }

    /// Registers a type and returns its identifier. A type that is registered
    /// already keeps the identifier it has, and the registry stays as it is.
    pub fn register(&mut self, ty: &str) -> (id: ComponentId)
        requires
            old(self).wf(),
        ensures
            final(self).wf(),
            final(self)@ == registered(old(self)@, ty@),
            identifier(final(self)@, ty@) == Some(id.0 as nat),
    {
        proof {
            lemma_registered(self@, ty@);
        }
        match self.lookup(ty) {
            Some(id) => id,
            None => {
                let id = ComponentId(self.types.len());
                let name = String::from_str(ty);
                proof {
                    lemma_texts_push(self.types@, name);
                    assert(stands_at(self@.push(ty@), ty@, self@.len() as int));
                    lemma_identifier_at(self@.push(ty@), ty@, self@.len() as int);
                }
                self.types.push(name);
                id
            },
        }
    }
}

} // verus!
