//! What the engine reports of its passes, as plain values.
//!
//! The engine's registry of passes decides which names exist, which of them
//! are hidden and which remove debug information. A [`PassRegistry`] holds
//! one reading of it, so that the rules that depend on it can be stated.

use vstd::prelude::*;

use crate::passes::Pass;
use crate::text::str_eq;

verus! {

/// What the engine reports of one pass.
#[derive(Clone, Debug)]
pub struct PassInfo {
    /// The name by which the engine knows the pass.
    pub name: String,
    /// The engine's description of the pass.
    pub description: String,
    /// Whether the engine hides the pass from its users.
    pub hidden: bool,
    /// Whether the pass removes debug information.
    pub removes_debug_info: bool,
}

/// The mathematical value of a [`PassInfo`].
pub struct PassInfoView {
    pub name: Seq<char>,
    pub description: Seq<char>,
    pub hidden: bool,
    pub removes_debug_info: bool,
}

impl View for PassInfo {
    type V = PassInfoView;

    open spec fn view(&self) -> PassInfoView {
        PassInfoView {
            name: self.name@,
            description: self.description@,
            hidden: self.hidden,
            removes_debug_info: self.removes_debug_info,
        }
    }
}

/// What the engine reports of its passes, in the order of its report.
#[derive(Clone, Debug)]
pub struct PassRegistry {
    pub passes: Vec<PassInfo>,
}

/// The entries of a list, each by its value.
pub open spec fn infos(passes: Seq<PassInfo>) -> Seq<PassInfoView> {
    Seq::new(passes.len(), |i: int| passes[i]@)
}

impl View for PassRegistry {
    type V = Seq<PassInfoView>;

    open spec fn view(&self) -> Seq<PassInfoView> {
        infos(self.passes@)
    }
}

/// The first entry of a name, if there is one.
pub open spec fn lookup(registry: Seq<PassInfoView>, name: Seq<char>) -> Option<PassInfoView>
    decreases registry.len(),
{
    if registry.len() == 0 {
        None
    } else if registry[0].name == name {
        Some(registry[0])
    } else {
        lookup(registry.skip(1), name)
    }
}

/// Whether the registry has an entry of the name.
pub open spec fn is_registered(registry: Seq<PassInfoView>, name: Seq<char>) -> bool {
    lookup(registry, name) is Some
}

/// Whether the registry says of the name that its pass removes debug
/// information. Of a name that it does not have it says nothing.
pub open spec fn removes_debug_info(registry: Seq<PassInfoView>, name: Seq<char>) -> bool {
    lookup(registry, name) matches Some(info) && info.removes_debug_info
}

/// Whether the registry shows the name: it has an entry of the name that is
/// not hidden.
pub open spec fn is_visible(registry: Seq<PassInfoView>, name: Seq<char>) -> bool {
    exists|i: int| 0 <= i < registry.len() && #[trigger] registry[i].name == name && !registry[i].hidden
}

/// Whether the catalog and the registry agree: the names of the catalog are
/// the names that the registry shows.
pub open spec fn catalog_parity(registry: Seq<PassInfoView>) -> bool {
    forall|name: Seq<char>|
        (exists|pass: Pass| #[trigger] pass.spec_name() == name) <==> #[trigger] is_visible(
            registry,
            name,
        )
}

/// The names of the registry, in its order.
pub open spec fn registered_names(registry: Seq<PassInfoView>) -> Seq<Seq<char>> {
    Seq::new(registry.len(), |i: int| registry[i].name)
}

/// The first entry of a name is an entry of that name, and no entry of the
/// name stands before it; there is none exactly if no entry has the name.
pub proof fn lemma_lookup(registry: Seq<PassInfoView>, name: Seq<char>)
    ensures
        lookup(registry, name) is None <==> forall|i: int|
            0 <= i < registry.len() ==> (#[trigger] registry[i]).name != name,
        lookup(registry, name) matches Some(info) ==> exists|i: int|
            0 <= i < registry.len() && #[trigger] registry[i] == info && info.name == name
                && forall|j: int| 0 <= j < i ==> (#[trigger] registry[j]).name != name,
    decreases registry.len(),
{
    if registry.len() > 0 {
        let rest = registry.skip(1);
        lemma_lookup(rest, name);
        if registry[0].name == name {
            assert(registry[0] == lookup(registry, name)->0);
        } else {
            assert forall|i: int| 0 <= i < rest.len() implies rest[i] == registry[i + 1] by {}
            if lookup(rest, name) is None {
                assert forall|i: int| 0 <= i < registry.len() implies (#[trigger] registry[i]).name
                    != name by {
                    if i > 0 {
                        assert(rest[i - 1].name != name);
                    }
                }
            } else {
                let info = lookup(rest, name)->0;
                let k = choose|k: int|
                    0 <= k < rest.len() && #[trigger] rest[k] == info && info.name == name
                        && forall|j: int| 0 <= j < k ==> (#[trigger] rest[j]).name != name;
                assert(registry[k + 1] == info);
                assert forall|j: int| 0 <= j < k + 1 implies (#[trigger] registry[j]).name
                    != name by {
                    if j > 0 {
                        assert(rest[j - 1].name != name);
                    }
                }
            }
        }
    }
}

/// A name that the registry shows is a name that it has.
pub proof fn lemma_visible_is_registered(registry: Seq<PassInfoView>, name: Seq<char>)
    requires
        is_visible(registry, name),
    ensures
        is_registered(registry, name),
{
    lemma_lookup(registry, name);
    let i = choose|i: int|
        0 <= i < registry.len() && #[trigger] registry[i].name == name && !registry[i].hidden;
    assert(registry[i].name == name);
}

/// Where the catalog and the registry agree, the registry has the name of
/// each pass and does not hide it, and each name that the registry shows is
/// the name of a pass.
pub proof fn lemma_parity(registry: Seq<PassInfoView>, pass: Pass)
    requires
        catalog_parity(registry),
    ensures
        is_visible(registry, pass.spec_name()),
        is_registered(registry, pass.spec_name()),
        forall|i: int|
            0 <= i < registry.len() && !(#[trigger] registry[i]).hidden ==> exists|other: Pass|
                #[trigger] other.spec_name() == registry[i].name,
{
    let name = pass.spec_name();
    assert(pass.spec_name() == name);
    assert(is_visible(registry, name));
    lemma_visible_is_registered(registry, name);
    assert forall|i: int| 0 <= i < registry.len() && !(#[trigger] registry[i]).hidden implies exists|
        other: Pass,
    | #[trigger] other.spec_name() == registry[i].name by {
        assert(registry[i].name == registry[i].name && !registry[i].hidden);
        assert(is_visible(registry, registry[i].name));
    }
}

impl PassRegistry {
    /// The place of the first entry of a name, if there is one.
    pub fn find(&self, name: &str) -> (r: Option<usize>)
        ensures
            r is Some <==> is_registered(self@, name@),
            r matches Some(i) ==> i < self@.len() && lookup(self@, name@) == Some(self@[i as int]),
    {
        let mut i: usize = 0;
        assert(self@.skip(0) =~= self@);
        while i < self.passes.len()
            invariant
                i <= self.passes.len(),
                lookup(self@, name@) == lookup(self@.skip(i as int), name@),
            decreases self.passes.len() - i,
        {
            proof {
                assert(self@.skip(i as int)[0] == self@[i as int]);
                assert(self@.skip(i as int).skip(1) =~= self@.skip(i + 1));
            }
            if str_eq(self.passes[i].name.as_str(), name) {
                return Some(i);
            }
            i = i + 1;
        }
        None
    }

    /// Whether the registry has an entry of the name.
    pub fn has(&self, name: &str) -> (r: bool)
        ensures
            r == is_registered(self@, name@),
    {
        self.find(name).is_some()
    }

    /// The names of the registry, in its order.
    pub fn get_registered_names(&self) -> (r: Vec<String>)
        ensures
            r.deep_view() == registered_names(self@),
    {
        let mut names: Vec<String> = Vec::new();
        let mut i: usize = 0;
        while i < self.passes.len()
            invariant
                i <= self.passes.len(),
                names.deep_view() == registered_names(self@).take(i as int),
            decreases self.passes.len() - i,
        {
            let ghost before = names.deep_view();
            names.push(self.passes[i].name.clone());
            proof {
                assert(names.deep_view() =~= before.push(self@[i as int].name));
                assert(registered_names(self@).take(i + 1) =~= before.push(self@[i as int].name));
            }
            i = i + 1;
        }
        proof {
            assert(registered_names(self@).take(self.passes.len() as int) =~= registered_names(
                self@,
            ));
        }
        names
    }

    /// The engine's description of the pass of a name.
    pub fn get_pass_description(&self, name: &str) -> (r: String)
        requires
            is_registered(self@, name@),
        ensures
            r@ == lookup(self@, name@)->0.description,
    {
        match self.find(name) {
            Some(i) => self.passes[i].description.clone(),
            None => String::new(),
        }
    }

    /// Whether the engine hides the pass of a name.
    pub fn is_pass_hidden(&self, name: &str) -> (r: bool)
        requires
            is_registered(self@, name@),
        ensures
            r == lookup(self@, name@)->0.hidden,
    {
        match self.find(name) {
            Some(i) => self.passes[i].hidden,
            None => false,
        }
    }

    /// Whether the pass of a name removes debug information. A name that the
    /// registry does not have removes none.
    pub fn pass_removes_debug_info(&self, name: &str) -> (r: bool)
        ensures
            r == removes_debug_info(self@, name@),
    {
        match self.find(name) {
            Some(i) => self.passes[i].removes_debug_info,
            None => false,
        }
    }

    /// Whether the registry shows the name.
    pub fn shows(&self, name: &str) -> (r: bool)
        ensures
            r == is_visible(self@, name@),
    {
        let mut i: usize = 0;
        while i < self.passes.len()
            invariant
                i <= self.passes.len(),
                forall|j: int|
                    0 <= j < i ==> !(#[trigger] self@[j].name == name@ && !self@[j].hidden),
            decreases self.passes.len() - i,
        {
            if !self.passes[i].hidden && str_eq(self.passes[i].name.as_str(), name) {
                assert(self@[i as int].name == name@ && !self@[i as int].hidden);
                return true;
            }
            i = i + 1;
        }
        false
    }

    /// Whether the catalog and the registry agree: the names of the catalog
    /// are the names that the registry shows.
    pub fn matches_catalog(&self) -> (r: bool)
        ensures
            r == catalog_parity(self@),
    {
        let all = Pass::all();
        let mut i: usize = 0;
        while i < all.len()
            invariant
                i <= all.len(),
                all@ == Pass::catalog(),
                forall|j: int| 0 <= j < i ==> is_visible(self@, (#[trigger] all@[j]).spec_name()),
            decreases all.len() - i,
        {
            if !self.shows(all[i].name()) {
                proof {
                    let name = all@[i as int].spec_name();
                    assert(all@[i as int].spec_name() == name);
                    assert(!is_visible(self@, name));
                }
                return false;
            }
            i = i + 1;
        }
        let mut k: usize = 0;
        while k < self.passes.len()
            invariant
                k <= self.passes.len(),
                forall|j: int|
                    0 <= j < k && !(#[trigger] self@[j]).hidden ==> exists|pass: Pass|
                        #[trigger] pass.spec_name() == self@[j].name,
            decreases self.passes.len() - k,
        {
            if !self.passes[k].hidden {
                match Pass::from_name(self.passes[k].name.as_str()) {
                    Some(pass) => {
                        assert(pass.spec_name() == self@[k as int].name);
                    },
                    None => {
                        proof {
                            let name = self@[k as int].name;
                            assert(self@[k as int].name == name && !self@[k as int].hidden);
                            assert(is_visible(self@, name));
                        }
                        return false;
                    },
                }
            }
            k = k + 1;
        }
        proof {
            assert forall|name: Seq<char>|
                (exists|pass: Pass| #[trigger] pass.spec_name() == name) <==> #[trigger] is_visible(
                    self@,
                    name,
                ) by {
                if exists|pass: Pass| #[trigger] pass.spec_name() == name {
                    let pass = choose|pass: Pass| #[trigger] pass.spec_name() == name;
                    Pass::lemma_catalog_complete(pass);
                    let j = choose|j: int| 0 <= j < all@.len() && all@[j] == pass;
                    assert(is_visible(self@, all@[j].spec_name()));
                }
                if is_visible(self@, name) {
                    let j = choose|j: int|
                        0 <= j < self@.len() && #[trigger] self@[j].name == name
                            && !self@[j].hidden;
                    assert(!self@[j].hidden);
                }
            }
        }
        true
    }
}

impl Pass {
    /// The engine's description of the pass, as the registry has it.
    pub fn description(&self, registry: &PassRegistry) -> (r: String)
        requires
            is_registered(registry@, self.spec_name()),
        ensures
            r@ == lookup(registry@, self.spec_name())->0.description,
    {
        registry.get_pass_description(self.name())
    }

    /// Whether the pass removes debug information, as the registry has it.
    pub fn removes_debug_info(&self, registry: &PassRegistry) -> (r: bool)
        ensures
            r == removes_debug_info(registry@, self.spec_name()),
    {
        registry.pass_removes_debug_info(self.name())
    }
}

} // verus!
