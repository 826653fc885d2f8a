use vstd::prelude::*;

use crate::types::{RuntimeError, Signature, SignatureModel};

verus! {

/// The mathematical form of a named, typed function with an entry point: a
/// registered native function or an export of a module.
pub struct FunctionModel {
    pub name: Seq<char>,
    pub sig: SignatureModel,
    pub address: u64,
}

/// The last entry of `s` named `name`, if any.
pub open spec fn find_function(s: Seq<FunctionModel>, name: Seq<char>) -> Option<FunctionModel>
    decreases s.len(),
{
    if s.len() == 0 {
        None
    } else if s.last().name == name {
        Some(s.last())
    } else {
        find_function(s.drop_last(), name)
    }
}

/// No two entries of `s` share a name.
pub open spec fn names_unique(s: Seq<FunctionModel>) -> bool {
    forall|i: int, j: int| 0 <= i < j < s.len() ==> s[i].name != s[j].name
}

/// A host function made callable from script code.
#[derive(Clone, Debug)]
pub struct NativeFunctionDescriptor {
    pub name: String,
    pub signature: Signature,
    pub entry_point: u64,
}

impl View for NativeFunctionDescriptor {
    type V = FunctionModel;

    open spec fn view(&self) -> FunctionModel {
        FunctionModel { name: self.name@, sig: self.signature@, address: self.entry_point }
    }
}

/// A table of native functions keyed by unique name.
#[derive(Debug)]
pub struct FunctionRegistry {
    entries: Vec<NativeFunctionDescriptor>,
}

impl View for FunctionRegistry {
    type V = Seq<FunctionModel>;

    closed spec fn view(&self) -> Seq<FunctionModel> {
        self.entries@.map_values(|d: NativeFunctionDescriptor| d@)
    }
}

impl FunctionRegistry {
    /// Every name occurs at most once.
    pub open spec fn wf(&self) -> bool {
        names_unique(self@)
    }

    /// An empty registry.
    pub fn new() -> (r: FunctionRegistry)
        ensures
            r.wf(),
            r@ == Seq::<FunctionModel>::empty(),
    {
        let r = FunctionRegistry { entries: Vec::new() };
        assert(r@ =~= Seq::<FunctionModel>::empty());
        r
    }

    /// Number of registered functions.
    pub fn len(&self) -> (r: usize)
        ensures
            r == self@.len(),
    {
        self.entries.len()
    }

    /// The descriptor registered under `name`, if any.
    pub fn lookup(&self, name: &String) -> (r: Option<&NativeFunctionDescriptor>)
        ensures
            match find_function(self@, name@) {
                Some(d) => r is Some && r->Some_0@ == d,
                None => r is None,
            },
    {
        let mut i: usize = self.entries.len();
        assert(self@.take(i as int) =~= self@);
        while i > 0
            invariant
                i <= self.entries.len(),
                find_function(self@, name@) == find_function(self@.take(i as int), name@),
            decreases i,
        {
            let ghost pre = self@.take(i as int);
            assert(pre.drop_last() =~= self@.take(i - 1));
            assert(pre.last() == self.entries@[i - 1]@);
            if self.entries[i - 1].name == *name {
                return Some(&self.entries[i - 1]);
            }
            i = i - 1;
        }
        assert(self@.take(0) =~= Seq::<FunctionModel>::empty());
        None
    }

    /// Adds a native function; fails with `DuplicateName`, leaving the
    /// registry unchanged, when the name is already taken.
    pub fn register(&mut self, name: String, signature: Signature, entry_point: u64) -> (r: Result<(), RuntimeError>)
        requires
            old(self).wf(),
        ensures
            final(self).wf(),
            find_function(old(self)@, name@) is Some ==> r == Err::<(), RuntimeError>(RuntimeError::DuplicateName) && final(self)@ == old(self)@,
            find_function(old(self)@, name@) is None ==> r is Ok && final(self)@ == old(self)@.push(
                FunctionModel { name: name@, sig: signature@, address: entry_point },
            ),
    {
        if self.lookup(&name).is_some() {
            return Err(RuntimeError::DuplicateName);
        }
        proof {
            lemma_absent_name(self@, name@);
        }
        let d = NativeFunctionDescriptor { name, signature, entry_point };
        let ghost prev = self@;
        self.entries.push(d);
        assert(self@ =~= prev.push(d@));
        Ok(())
    }
}

/// A name that `find_function` misses belongs to no entry.
pub proof fn lemma_absent_name(s: Seq<FunctionModel>, name: Seq<char>)
    requires
        find_function(s, name) is None,
    ensures
        forall|i: int| 0 <= i < s.len() ==> s[i].name != name,
    decreases s.len(),
{
    if s.len() > 0 {
        lemma_absent_name(s.drop_last(), name);
        assert forall|i: int| 0 <= i < s.len() implies s[i].name != name by {
            if i < s.len() - 1 {
                assert(s.drop_last()[i] == s[i]);
            }
        }
    }
}

} // verus!
