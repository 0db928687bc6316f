use std::rc::Rc;
use vstd::prelude::*;
use crate::lang::enums::{FerrumEnum, FerrumEnumTemplate};
use crate::lang::structs::{FerrumStruct, FerrumStructTemplate};
use crate::lang::types::{same_text, share, FerrumGenericsTable, GenericTemplate};

verus! {

/// Why a template could not be instantiated.
#[derive(Debug, Clone, Copy, PartialEq, Eq, Structural)]
pub enum InstantiationError {
    /// The template reads a slot that the generics table does not have:
    /// the table was not built for this template.
    MalformedGenerics,
}

/// What tells one instantiation from another: name and namespace of the
/// template, and the fingerprint of the generics.
pub struct InstanceKey {
    pub name: Seq<char>,
    pub namespace: Seq<char>,
    pub fingerprint: u64,
}

/// The key of a struct.
pub open spec fn struct_key(s: FerrumStruct) -> InstanceKey {
    InstanceKey {
        name: s.spec_name(),
        namespace: s.spec_namespace(),
        fingerprint: s.spec_fingerprint(),
    }
}

/// The key of an enum.
pub open spec fn enum_key(e: FerrumEnum) -> InstanceKey {
    InstanceKey {
        name: e.spec_name(),
        namespace: e.spec_namespace(),
        fingerprint: e.spec_fingerprint(),
    }
}

/// The types that were instantiated so far, so that asking for the same
/// instantiation again gives the type that was made the first time.
pub struct InstantiationCache {
    structs: Vec<Rc<FerrumStruct>>,
    enums: Vec<Rc<FerrumEnum>>,
}

impl InstantiationCache {
    /// The structs that are held, oldest first.
    pub closed spec fn structs(&self) -> Seq<Rc<FerrumStruct>> {
        self.structs@
    }

    /// The enums that are held, oldest first.
    pub closed spec fn enums(&self) -> Seq<Rc<FerrumEnum>> {
        self.enums@
    }

    /// No two structs that are held have the same key, and no two enums.
    pub open spec fn wf(&self) -> bool {
        &&& forall|i: int, j: int|
            0 <= i < j < self.structs().len() ==> struct_key(*self.structs()[i]) != struct_key(
                *self.structs()[j],
            )
        &&& forall|i: int, j: int|
            0 <= i < j < self.enums().len() ==> enum_key(*self.enums()[i]) != enum_key(
                *self.enums()[j],
            )
    }

    /// Whether a struct with this key is held.
    pub open spec fn has_struct(&self, key: InstanceKey) -> bool {
        exists|i: int| 0 <= i < self.structs().len() && struct_key(*self.structs()[i]) == key
    }

    /// Whether an enum with this key is held.
    pub open spec fn has_enum(&self, key: InstanceKey) -> bool {
        exists|i: int| 0 <= i < self.enums().len() && enum_key(*self.enums()[i]) == key
    }

    /// The key under which the template's instantiation with this table
    /// is held.
    pub open spec fn key_of_struct(
        template: &FerrumStructTemplate,
        table: &FerrumGenericsTable,
    ) -> InstanceKey {
        InstanceKey {
            name: template.spec_name(),
            namespace: template.spec_namespace(),
            fingerprint: table.spec_fingerprint(),
        }
    }

    /// The key under which the template's instantiation with this table
    /// is held.
    pub open spec fn key_of_enum(
        template: &FerrumEnumTemplate,
        table: &FerrumGenericsTable,
    ) -> InstanceKey {
        InstanceKey {
            name: template.spec_name(),
            namespace: template.spec_namespace(),
            fingerprint: table.spec_fingerprint(),
        }
    }

    /// A cache that holds nothing.
    pub fn new() -> (r: Self)
        ensures
            r.wf(),
            r.structs().len() == 0,
            r.enums().len() == 0,
    {
        InstantiationCache { structs: Vec::new(), enums: Vec::new() }
    }

    /// The position of the struct with the given key.
    fn find_struct(&self, name: &String, namespace: &String, fingerprint: u64) -> (r: Option<usize>)
        ensures
            match r {
                Some(i) => i < self.structs().len() && struct_key(*self.structs()[i as int]) == (
                InstanceKey { name: name@, namespace: namespace@, fingerprint }),
                None => !self.has_struct(
                    InstanceKey { name: name@, namespace: namespace@, fingerprint },
                ),
            },
    {
        let mut i: usize = 0;
        while i < self.structs.len()
            invariant
                i <= self.structs.len(),
                forall|k: int|
                    0 <= k < i ==> struct_key(*self.structs()[k]) != (InstanceKey {
                        name: name@,
                        namespace: namespace@,
                        fingerprint,
                    }),
            decreases self.structs.len() - i,
        {
            let held = &self.structs[i];
            if same_text(held.name(), name.as_str()) && same_text(
                held.namespace(),
                namespace.as_str(),
            ) && held.generic_fingerprint() == fingerprint {
                return Some(i);
            }
            i += 1;
        }
        None
    }

    /// The position of the enum with the given key.
    fn find_enum(&self, name: &String, namespace: &String, fingerprint: u64) -> (r: Option<usize>)
        ensures
            match r {
                Some(i) => i < self.enums().len() && enum_key(*self.enums()[i as int]) == (
                InstanceKey { name: name@, namespace: namespace@, fingerprint }),
                None => !self.has_enum(
                    InstanceKey { name: name@, namespace: namespace@, fingerprint },
                ),
            },
    {
        let mut i: usize = 0;
        while i < self.enums.len()
            invariant
                i <= self.enums.len(),
                forall|k: int|
                    0 <= k < i ==> enum_key(*self.enums()[k]) != (InstanceKey {
                        name: name@,
                        namespace: namespace@,
                        fingerprint,
                    }),
            decreases self.enums.len() - i,
        {
            let held = &self.enums[i];
            if same_text(held.name(), name.as_str()) && same_text(
                held.namespace(),
                namespace.as_str(),
            ) && held.generic_fingerprint() == fingerprint {
                return Some(i);
            }
            i += 1;
        }
        None
    }

    /// The struct that the template makes with the table.
    ///
    /// If a struct with the template's name and namespace and the table's
    /// fingerprint is held, that struct is handed out and nothing is made.
    /// Else the struct is made, laid out, and held from now on.
    /// `MalformedGenerics`, and no change, if nothing is held and the
    /// template reads a slot that the table does not have.
    pub fn instantiate_struct(
        &mut self,
        template: &FerrumStructTemplate,
        table: &FerrumGenericsTable,
    ) -> (r: Result<Rc<FerrumStruct>, InstantiationError>)
        requires
            old(self).wf(),
            template.resolvable(table) ==> template.fits(table),
        ensures
            final(self).wf(),
            final(self).enums() == old(self).enums(),
            old(self).has_struct(Self::key_of_struct(template, table)) ==> {
                &&& r matches Ok(held)
                &&& old(self).structs().contains(held)
                &&& struct_key(*held) == Self::key_of_struct(template, table)
                &&& final(self).structs() == old(self).structs()
            },
            !old(self).has_struct(Self::key_of_struct(template, table)) ==> {
                &&& r is Ok <==> template.resolvable(table)
                &&& r matches Ok(made) ==> template.instantiates_to(table, &*made)
                    && final(self).structs() == old(self).structs().push(made)
                &&& r is Err ==> r == Err::<Rc<FerrumStruct>, InstantiationError>(
                    InstantiationError::MalformedGenerics,
                ) && final(self).structs() == old(self).structs()
            },
    {
        let fingerprint = *table.fingerprint();
        match self.find_struct(template.name(), template.namespace(), fingerprint) {
            Some(i) => {
                Ok(share(&self.structs[i]))
            },
            None => match template.generate_type(table) {
                Some(made) => {
                    let made = Rc::new(made);
                    self.structs.push(share(&made));
                    proof {
                        assert(self.enums() == old(self).enums());
                        let key = Self::key_of_struct(template, table);
                        assert forall|i: int, j: int|
                            0 <= i < j < self.structs().len() implies struct_key(*self.structs()[i])
                            != struct_key(*self.structs()[j]) by {
                            if j == old(self).structs().len() {
                                assert(old(self).structs()[i] == self.structs()[i]);
                                if struct_key(*old(self).structs()[i]) == key {
                                    assert(old(self).has_struct(key));
                                }
                            } else {
                                assert(old(self).structs()[i] == self.structs()[i]);
                                assert(old(self).structs()[j] == self.structs()[j]);
                            }
                        }
                    }
                    Ok(made)
                },
                None => Err(InstantiationError::MalformedGenerics),
            },
        }
    }

    /// The enum that the template makes with the table.
    ///
    /// If an enum with the template's name and namespace and the table's
    /// fingerprint is held, that enum is handed out and nothing is made.
    /// Else the enum is made, laid out, and held from now on.
    /// `MalformedGenerics`, and no change, if nothing is held and the
    /// template reads a slot that the table does not have.
    pub fn instantiate_enum(
        &mut self,
        template: &FerrumEnumTemplate,
        table: &FerrumGenericsTable,
    ) -> (r: Result<Rc<FerrumEnum>, InstantiationError>)
        requires
            old(self).wf(),
            template.resolvable(table) ==> template.fits(table),
        ensures
            final(self).wf(),
            final(self).structs() == old(self).structs(),
            old(self).has_enum(Self::key_of_enum(template, table)) ==> {
                &&& r matches Ok(held)
                &&& old(self).enums().contains(held)
                &&& enum_key(*held) == Self::key_of_enum(template, table)
                &&& final(self).enums() == old(self).enums()
            },
            !old(self).has_enum(Self::key_of_enum(template, table)) ==> {
                &&& r is Ok <==> template.resolvable(table)
                &&& r matches Ok(made) ==> template.instantiates_to(table, &*made)
                    && final(self).enums() == old(self).enums().push(made)
                &&& r is Err ==> r == Err::<Rc<FerrumEnum>, InstantiationError>(
                    InstantiationError::MalformedGenerics,
                ) && final(self).enums() == old(self).enums()
            },
    {
        let fingerprint = *table.fingerprint();
        match self.find_enum(template.name(), template.namespace(), fingerprint) {
            Some(i) => {
                Ok(share(&self.enums[i]))
            },
            None => match template.generate_type(table) {
                Some(made) => {
                    let made = Rc::new(made);
                    self.enums.push(share(&made));
                    proof {
                        assert(self.structs() == old(self).structs());
                        let key = Self::key_of_enum(template, table);
                        assert forall|i: int, j: int|
                            0 <= i < j < self.enums().len() implies enum_key(*self.enums()[i])
                            != enum_key(*self.enums()[j]) by {
                            if j == old(self).enums().len() {
                                assert(old(self).enums()[i] == self.enums()[i]);
                                if enum_key(*old(self).enums()[i]) == key {
                                    assert(old(self).has_enum(key));
                                }
                            } else {
                                assert(old(self).enums()[i] == self.enums()[i]);
                                assert(old(self).enums()[j] == self.enums()[j]);
                            }
                        }
                    }
                    Ok(made)
                },
                None => Err(InstantiationError::MalformedGenerics),
            },
        }
    }

    /// Asking twice for the same instantiation gives the same struct: what
    /// a well-formed cache holds under a key, it holds once, so the struct
    /// handed out for a key is always the one that was made first.
    pub proof fn lemma_one_struct_per_key(&self, first: Rc<FerrumStruct>, second: Rc<FerrumStruct>)
        requires
            self.wf(),
            self.structs().contains(first),
            self.structs().contains(second),
            struct_key(*first) == struct_key(*second),
        ensures
            first == second,
    {
        let i = choose|i: int| 0 <= i < self.structs().len() && self.structs()[i] == first;
        let j = choose|j: int| 0 <= j < self.structs().len() && self.structs()[j] == second;
        if i < j {
            assert(struct_key(*self.structs()[i]) != struct_key(*self.structs()[j]));
        } else if j < i {
            assert(struct_key(*self.structs()[j]) != struct_key(*self.structs()[i]));
        }
    }

    /// Asking twice for the same instantiation gives the same enum.
    pub proof fn lemma_one_enum_per_key(&self, first: Rc<FerrumEnum>, second: Rc<FerrumEnum>)
        requires
            self.wf(),
            self.enums().contains(first),
            self.enums().contains(second),
            enum_key(*first) == enum_key(*second),
        ensures
            first == second,
    {
        let i = choose|i: int| 0 <= i < self.enums().len() && self.enums()[i] == first;
        let j = choose|j: int| 0 <= j < self.enums().len() && self.enums()[j] == second;
        if i < j {
            assert(enum_key(*self.enums()[i]) != enum_key(*self.enums()[j]));
        } else if j < i {
            assert(enum_key(*self.enums()[j]) != enum_key(*self.enums()[i]));
        }
    }
}

} // verus!
