use vstd::prelude::*;
use vstd::string::StringExecFns;
use crate::fault::Fault;
use crate::function::FunctionId;

verus! {

/// The name of a registered module. Its view is the name's characters.
pub struct ModuleName {
    name: String,
}

impl View for ModuleName {
    type V = Seq<char>;

    closed spec fn view(&self) -> Seq<char> {
        self.name@
    }
}

impl ModuleName {
    pub fn name(&self) -> (r: &str)
        ensures
            r@ == self@,
    {
        self.name.as_str()
    }

    /// The identifier of the function `function_name` of this module.
    pub fn function_id(&self, function_name: &str) -> (id: FunctionId)
        ensures
            id@ == crate::function::qualified(self@, function_name@),
    {
        FunctionId::new(self, function_name)
    }
}

/// The set of module names in use. Its view is that set.
pub struct ModuleRegistry {
    modules: Vec<String>,
}

impl View for ModuleRegistry {
    type V = Set<Seq<char>>;

    closed spec fn view(&self) -> Set<Seq<char>> {
        Set::new(|name: Seq<char>| exists|i: int| 0 <= i < self.modules@.len() && self.modules@[i]@ == name)
    }
}

impl ModuleRegistry {
    pub fn new() -> (r: ModuleRegistry)
        ensures
            r@ == Set::<Seq<char>>::empty(),
    {
        let r = ModuleRegistry { modules: Vec::new() };
        assert(r@ =~= Set::<Seq<char>>::empty());
        r
    }

    /// Whether a module of that name is registered.
    pub fn is_registered(&self, module_name: &str) -> (r: bool)
        ensures
            r == self@.contains(module_name@),
    {
        let wanted = String::from_str(module_name);
        let mut i: usize = 0;
        while i < self.modules.len()
            invariant
                i <= self.modules@.len(),
                wanted@ == module_name@,
                forall|j: int| 0 <= j < i ==> self.modules@[j]@ != module_name@,
            decreases self.modules@.len() - i,
        {
            if self.modules[i] == wanted {
                return true;
            }
            i = i + 1;
        }
        false
    }

    /// Registers a module under a name not yet taken, and returns the name.
    pub fn register(&mut self, module_name: String) -> (r: ModuleName)
        requires
            !old(self)@.contains(module_name@),
        ensures
            final(self)@ == old(self)@.insert(module_name@),
            r@ == module_name@,
    {
        let name = module_name.clone();
        self.modules.push(module_name);
        proof {
            let before = old(self).modules@;
            let after = self.modules@;
            assert forall|s: Seq<char>| self@.contains(s) <==> old(self)@.insert(module_name@).contains(s) by {
                if self@.contains(s) {
                    let i = choose|i: int| 0 <= i < after.len() && after[i]@ == s;
                    if i < before.len() {
                        assert(before[i]@ == s);
                    }
                }
                if old(self)@.contains(s) {
                    let i = choose|i: int| 0 <= i < before.len() && before[i]@ == s;
                    assert(after[i]@ == s);
                }
                if s == module_name@ {
                    assert(after[before.len() as int]@ == s);
                }
            }
            assert(self@ =~= old(self)@.insert(module_name@));
        }
        ModuleName { name }
    }
}

impl ModuleRegistry {
    /// Registers a module and returns its name, or rejects a name that is
    /// taken already and leaves the registry as it was.
    pub fn try_register(&mut self, module_name: String) -> (r: Result<ModuleName, Fault>)
        ensures
            old(self)@.contains(module_name@) ==> r == Err::<ModuleName, Fault>(
                Fault::DuplicateRegistration,
            ) && final(self)@ == old(self)@,
            !old(self)@.contains(module_name@) ==> r.is_ok() && r.unwrap()@ == module_name@ && final(self)@
                == old(self)@.insert(module_name@),
    {
        if self.is_registered(module_name.as_str()) {
            Err(Fault::DuplicateRegistration)
        } else {
            Ok(self.register(module_name))
        }
    }
}

impl Default for ModuleRegistry {
    fn default() -> (r: Self)
        ensures
            r@ == Set::<Seq<char>>::empty(),
    {
        Self::new()
    }
}

} // verus!
