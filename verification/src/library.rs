//! Shader library objects: function lookup by name, the function-name
//! table, and the wire constants of the library-related option types.
//!
//! A shader library exports a set of named functions. Looking one up by
//! name is an absence-style operation: the foreign call returns a null
//! reference for a name the library does not export, and a new owning
//! reference for one it does.

use vstd::prelude::*;

use crate::handle::Handle;
use crate::runtime::{ObjectData, Runtime};

verus! {

/// Whether a function-name table holds the given name.
pub open spec fn table_contains(names: Seq<String>, name: Seq<char>) -> bool {
    exists|i: int| 0 <= i < names.len() && names[i]@ == name
}

/// Whether a name table holds the given name.
pub fn contains_name(names: &Vec<String>, name: &String) -> (b: bool)
    ensures
        b == table_contains(names@, name@),
{
    let n = names.len();
    let mut i: usize = 0;
    while i < n
        invariant
            i <= n,
            n == names@.len(),
            forall|j: int| 0 <= j < i ==> names@[j]@ != name@,
        decreases n - i,
    {
        if names[i] == *name {
            return true;
        }
        i = i + 1;
    }
    false
}

/// A copy of a name table, name for name.
fn clone_names(names: &Vec<String>) -> (out: Vec<String>)
    ensures
        out@.len() == names@.len(),
        forall|i: int| 0 <= i < names@.len() ==> (#[trigger] out@[i])@ == names@[i]@,
{
    let n = names.len();
    let mut out: Vec<String> = Vec::new();
    let mut i: usize = 0;
    while i < n
        invariant
            i <= n,
            n == names@.len(),
            out@.len() == i,
            forall|j: int| 0 <= j < i ==> (#[trigger] out@[j])@ == names@[j]@,
        decreases n - i,
    {
        out.push(names[i].clone());
        i = i + 1;
    }
    out
}

impl Runtime {
    /// The names of the functions a library exports, as host strings.
    pub fn get_function_names(&self, library: &Handle) -> (out: Vec<String>)
        requires
            self.wf(),
            self.is_live(library.reference()),
            self.data_of(library.reference()) is FunctionTable,
        ensures
            out@.len() == self.data_of(library.reference())->names@.len(),
            forall|i: int|
                0 <= i < out@.len() ==> (#[trigger] out@[i])@ == self.data_of(
                    library.reference(),
                )->names@[i]@,
    {
        let entry = self.data_entry(library.unwrap_reference());
        match entry {
            ObjectData::FunctionTable { names } => clone_names(names),
            _ => {
                proof {
                    assert(false);
                }
                Vec::new()
            },
        }
    }

    /// Looks up a function of a library by name: a populated result
    /// wrapping a fresh owning reference exactly when the library exports
    /// the name, and an empty result — null, no diagnostic — exactly when
    /// it does not.
    pub fn new_function_with_name(&mut self, library: &Handle, name: &String) -> (r: Option<
        Handle,
    >)
        requires
            old(self).wf(),
            old(self).is_live(library.reference()),
            old(self).data_of(library.reference()) is FunctionTable,
            old(self).object_count() < usize::MAX,
        ensures
            final(self).wf(),
            r is Some <==> table_contains(
                old(self).data_of(library.reference())->names@,
                name@,
            ),
            r matches Some(h) ==> {
                &&& h.wf()
                &&& h.reference() == old(self).object_count() + 1
                &&& final(self).is_live(h.reference())
                &&& final(self).count_of(h.reference()) == 1
                &&& final(self).object_count() == old(self).object_count() + 1
            },
            r is None ==> final(self).counts() == old(self).counts()
                && final(self).object_count() == old(self).object_count(),
            forall|q: usize|
                old(self).in_range(q) ==> final(self).count_of(q) == old(self).count_of(q),
            forall|q: usize|
                old(self).in_range(q) ==> final(self).data_of(q) == old(self).data_of(q),
    {
        let found = {
            let entry = self.data_entry(library.unwrap_reference());
            match entry {
                ObjectData::FunctionTable { names } => contains_name(names, name),
                _ => {
                    proof {
                        assert(false);
                    }
                    false
                },
            }
        };
        if found {
            let r = self.allocate(ObjectData::Opaque);
            Some(Handle::wrap(r))
        } else {
            None
        }
    }
}

/// The kind of a shader-library function.
#[derive(Clone, Copy, PartialEq, Eq, Structural, Debug)]
pub enum MTLFunctionType {
    Vertex,
    Fragment,
    Kernel,
}

impl MTLFunctionType {
    /// The wire integer the foreign framework assigns to this variant.
    pub open spec fn wire_spec(self) -> u64 {
        match self {
            MTLFunctionType::Vertex => 1,
            MTLFunctionType::Fragment => 2,
            MTLFunctionType::Kernel => 3,
        }
    }

    /// The variant a wire integer stands for, if any.
    pub open spec fn from_wire_spec(w: u64) -> Option<MTLFunctionType> {
        if w == 1 {
            Some(MTLFunctionType::Vertex)
        } else if w == 2 {
            Some(MTLFunctionType::Fragment)
        } else if w == 3 {
            Some(MTLFunctionType::Kernel)
        } else {
            None
        }
    }

    /// This variant's wire integer.
    pub fn to_wire(self) -> (w: u64)
        ensures
            w == self.wire_spec(),
    {
        match self {
            MTLFunctionType::Vertex => 1,
            MTLFunctionType::Fragment => 2,
            MTLFunctionType::Kernel => 3,
        }
    }

    /// The variant a wire integer stands for, if any.
    pub fn from_wire(w: u64) -> (r: Option<MTLFunctionType>)
        ensures
            r == Self::from_wire_spec(w),
    {
        if w == 1 {
            Some(MTLFunctionType::Vertex)
        } else if w == 2 {
            Some(MTLFunctionType::Fragment)
        } else if w == 3 {
            Some(MTLFunctionType::Kernel)
        } else {
            None
        }
    }

    /// Converting a variant to its wire integer and back yields the
    /// original variant.
    pub proof fn lemma_wire_round_trip(self)
        ensures
            Self::from_wire_spec(self.wire_spec()) == Some(self),
    {
    }

    /// A wire integer that decodes to a variant is exactly that
    /// variant's wire integer.
    pub proof fn lemma_wire_inverse(w: u64)
        ensures
            Self::from_wire_spec(w) matches Some(v) ==> v.wire_spec() == w,
    {
    }
}

/// The version of the shading language a compilation targets.
#[derive(Clone, Copy, PartialEq, Eq, Structural, Debug)]
pub enum MTLLanguageVersion {
    V10,
    V11,
    V12,
    V20,
    V21,
    V22,
}

impl MTLLanguageVersion {
    /// The wire integer the foreign framework assigns to this variant:
    /// the major version in the upper half-word, the minor in the lower.
    pub open spec fn wire_spec(self) -> u64 {
        match self {
            MTLLanguageVersion::V10 => 0x10000,
            MTLLanguageVersion::V11 => 0x10001,
            MTLLanguageVersion::V12 => 0x10002,
            MTLLanguageVersion::V20 => 0x20000,
            MTLLanguageVersion::V21 => 0x20001,
            MTLLanguageVersion::V22 => 0x20002,
        }
    }

    /// The variant a wire integer stands for, if any.
    pub open spec fn from_wire_spec(w: u64) -> Option<MTLLanguageVersion> {
        if w == 0x10000 {
            Some(MTLLanguageVersion::V10)
        } else if w == 0x10001 {
            Some(MTLLanguageVersion::V11)
        } else if w == 0x10002 {
            Some(MTLLanguageVersion::V12)
        } else if w == 0x20000 {
            Some(MTLLanguageVersion::V20)
        } else if w == 0x20001 {
            Some(MTLLanguageVersion::V21)
        } else if w == 0x20002 {
            Some(MTLLanguageVersion::V22)
        } else {
            None
        }
    }

    /// This variant's wire integer.
    pub fn to_wire(self) -> (w: u64)
        ensures
            w == self.wire_spec(),
    {
        match self {
            MTLLanguageVersion::V10 => 0x10000,
            MTLLanguageVersion::V11 => 0x10001,
            MTLLanguageVersion::V12 => 0x10002,
            MTLLanguageVersion::V20 => 0x20000,
            MTLLanguageVersion::V21 => 0x20001,
            MTLLanguageVersion::V22 => 0x20002,
        }
    }

    /// The variant a wire integer stands for, if any.
    pub fn from_wire(w: u64) -> (r: Option<MTLLanguageVersion>)
        ensures
            r == Self::from_wire_spec(w),
    {
        if w == 0x10000 {
            Some(MTLLanguageVersion::V10)
        } else if w == 0x10001 {
            Some(MTLLanguageVersion::V11)
        } else if w == 0x10002 {
            Some(MTLLanguageVersion::V12)
        } else if w == 0x20000 {
            Some(MTLLanguageVersion::V20)
        } else if w == 0x20001 {
            Some(MTLLanguageVersion::V21)
        } else if w == 0x20002 {
            Some(MTLLanguageVersion::V22)
        } else {
            None
        }
    }

    /// Converting a variant to its wire integer and back yields the
    /// original variant.
    pub proof fn lemma_wire_round_trip(self)
        ensures
            Self::from_wire_spec(self.wire_spec()) == Some(self),
    {
    }

    /// A wire integer that decodes to a variant is exactly that
    /// variant's wire integer.
    pub proof fn lemma_wire_inverse(w: u64)
        ensures
            Self::from_wire_spec(w) matches Some(v) ==> v.wire_spec() == w,
    {
    }
}

} // verus!
