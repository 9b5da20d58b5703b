//! The declaration arena: append-only stores addressed by integer ids.

use vstd::prelude::*;
use crate::class::Class;
use crate::function::Function;
use crate::module::Module;

verus! {

/// Id of a module: its place in the store of modules.
#[derive(Clone, Copy, Debug, Default, PartialEq, Eq, PartialOrd, Ord, Hash, Structural)]
pub struct ModuleId(pub usize);

/// Id of a function: its place in the store of functions.
#[derive(Clone, Copy, Debug, Default, PartialEq, Eq, PartialOrd, Ord, Hash, Structural)]
pub struct FunctionId(pub usize);

/// Id of a class: its place in the store of classes.
#[derive(Clone, Copy, Debug, Default, PartialEq, Eq, PartialOrd, Ord, Hash, Structural)]
pub struct ClassId(pub usize);


/// The store of module declarations. Entries are added at the end and never
/// removed, so an id stays valid and keeps naming the same entry.
#[derive(Clone, Debug, PartialEq)]
pub struct Modules {
    map: Vec<Module>,
}

impl View for Modules {
    type V = Seq<Module>;

    closed spec fn view(&self) -> Seq<Module> {
        self.map@
    }
}

impl Modules {
    pub fn new() -> (store: Modules)
        ensures
            store@ == Seq::<Module>::empty(),
    {
        Modules { map: Vec::new() }
    }

    pub fn len(&self) -> (len: usize)
        ensures
            len == self@.len(),
    {
        self.map.len()
    }

    pub fn is_empty(&self) -> (empty: bool)
        ensures
            empty == (self@.len() == 0),
    {
        self.map.len() == 0
    }

    /// Tests whether `id` names an entry of this store.
    pub fn contains(&self, id: ModuleId) -> (inside: bool)
        ensures
            inside == (id.0 < self@.len()),
    {
        id.0 < self.map.len()
    }

    pub fn get(&self, id: ModuleId) -> (entry: &Module)
        requires
            id.0 < self@.len(),
        ensures
            *entry == self@[id.0 as int],
    {
        &self.map[id.0]
    }

    pub fn get_mut(&mut self, id: ModuleId) -> (entry: &mut Module)
        requires
            id.0 < old(self)@.len(),
        ensures
            *entry == old(self)@[id.0 as int],
            final(self)@ == old(self)@.update(id.0 as int, *final(entry)),
    {
        &mut self.map[id.0]
    }

    /// Adds an entry at the end. Its id is the number of entries before.
    pub fn push(&mut self, value: Module) -> (id: ModuleId)
        ensures
            id.0 == old(self)@.len(),
            final(self)@ == old(self)@.push(value),
    {
        let id = ModuleId(self.map.len());
        self.map.push(value);
        id
    }

    /// The entries in the order of their ids.
    pub fn as_slice(&self) -> (entries: &[Module])
        ensures
            entries@ == self@,
    {
        self.map.as_slice()
    }
}

/// The store of function declarations. Entries are added at the end and never
/// removed, so an id stays valid and keeps naming the same entry.
#[derive(Clone, Debug, PartialEq)]
pub struct GenericFunctions {
    map: Vec<Function>,
}

impl View for GenericFunctions {
    type V = Seq<Function>;

    closed spec fn view(&self) -> Seq<Function> {
        self.map@
    }
}

impl GenericFunctions {
    pub fn new() -> (store: GenericFunctions)
        ensures
            store@ == Seq::<Function>::empty(),
    {
        GenericFunctions { map: Vec::new() }
    }

    pub fn len(&self) -> (len: usize)
        ensures
            len == self@.len(),
    {
        self.map.len()
    }

    pub fn is_empty(&self) -> (empty: bool)
        ensures
            empty == (self@.len() == 0),
    {
        self.map.len() == 0
    }

    /// Tests whether `id` names an entry of this store.
    pub fn contains(&self, id: FunctionId) -> (inside: bool)
        ensures
            inside == (id.0 < self@.len()),
    {
        id.0 < self.map.len()
    }

    pub fn get(&self, id: FunctionId) -> (entry: &Function)
        requires
            id.0 < self@.len(),
        ensures
            *entry == self@[id.0 as int],
    {
        &self.map[id.0]
    }

    pub fn get_mut(&mut self, id: FunctionId) -> (entry: &mut Function)
        requires
            id.0 < old(self)@.len(),
        ensures
            *entry == old(self)@[id.0 as int],
            final(self)@ == old(self)@.update(id.0 as int, *final(entry)),
    {
        &mut self.map[id.0]
    }

    /// Adds an entry at the end. Its id is the number of entries before.
    pub fn push(&mut self, value: Function) -> (id: FunctionId)
        ensures
            id.0 == old(self)@.len(),
            final(self)@ == old(self)@.push(value),
    {
        let id = FunctionId(self.map.len());
        self.map.push(value);
        id
    }

    /// The entries in the order of their ids.
    pub fn as_slice(&self) -> (entries: &[Function])
        ensures
            entries@ == self@,
    {
        self.map.as_slice()
    }
}

/// The store of class declarations. Entries are added at the end and never
/// removed, so an id stays valid and keeps naming the same entry.
#[derive(Clone, Debug, PartialEq)]
pub struct Classes {
    map: Vec<Class>,
}

impl View for Classes {
    type V = Seq<Class>;

    closed spec fn view(&self) -> Seq<Class> {
        self.map@
    }
}

impl Classes {
    pub fn new() -> (store: Classes)
        ensures
            store@ == Seq::<Class>::empty(),
    {
        Classes { map: Vec::new() }
    }

    pub fn len(&self) -> (len: usize)
        ensures
            len == self@.len(),
    {
        self.map.len()
    }

    pub fn is_empty(&self) -> (empty: bool)
        ensures
            empty == (self@.len() == 0),
    {
        self.map.len() == 0
    }

    /// Tests whether `id` names an entry of this store.
    pub fn contains(&self, id: ClassId) -> (inside: bool)
        ensures
            inside == (id.0 < self@.len()),
    {
        id.0 < self.map.len()
    }

    pub fn get(&self, id: ClassId) -> (entry: &Class)
        requires
            id.0 < self@.len(),
        ensures
            *entry == self@[id.0 as int],
    {
        &self.map[id.0]
    }

    pub fn get_mut(&mut self, id: ClassId) -> (entry: &mut Class)
        requires
            id.0 < old(self)@.len(),
        ensures
            *entry == old(self)@[id.0 as int],
            final(self)@ == old(self)@.update(id.0 as int, *final(entry)),
    {
        &mut self.map[id.0]
    }

    /// Adds an entry at the end. Its id is the number of entries before.
    pub fn push(&mut self, value: Class) -> (id: ClassId)
        ensures
            id.0 == old(self)@.len(),
            final(self)@ == old(self)@.push(value),
    {
        let id = ClassId(self.map.len());
        self.map.push(value);
        id
    }

    /// The entries in the order of their ids.
    pub fn as_slice(&self) -> (entries: &[Class])
        ensures
            entries@ == self@,
    {
        self.map.as_slice()
    }
}


impl Default for Modules {
    fn default() -> (store: Modules)
        ensures
            store@ == Seq::<Module>::empty(),
    {
        Modules::new()
    }
}


impl Default for GenericFunctions {
    fn default() -> (store: GenericFunctions)
        ensures
            store@ == Seq::<Function>::empty(),
    {
        GenericFunctions::new()
    }
}


impl Default for Classes {
    fn default() -> (store: Classes)
        ensures
            store@ == Seq::<Class>::empty(),
    {
        Classes::new()
    }
}


/// All the declarations of a compilation.
#[derive(Clone, Debug, PartialEq)]
pub struct Data {
    pub modules: Modules,
    pub classes: Classes,
    pub functions: GenericFunctions,
}

impl Default for Data {
    fn default() -> (data: Data)
        ensures
            data.modules@ == Seq::<Module>::empty(),
            data.classes@ == Seq::<Class>::empty(),
            data.functions@ == Seq::<Function>::empty(),
    {
        Data {
            modules: Modules::new(),
            classes: Classes::new(),
            functions: GenericFunctions::new(),
        }
    }
}

/// Adding an entry leaves every id that was valid before valid, and naming
/// the entry it named; the new id is larger than each of them.
pub proof fn lemma_push_keeps_ids<T>(before: Seq<T>, value: T, id: int)
    requires
        0 <= id < before.len(),
    ensures
        id < before.push(value).len(),
        before.push(value)[id] == before[id],
        before.push(value)[before.len() as int] == value,
        id < before.len(),
{
}

} // verus!
