//! Named tile sources of a style document.

use vstd::prelude::*;

use crate::bytes::{bytes_eq, bytes_of};

verus! {

/// One tile source: its kind and the URIs of its containers.
#[derive(Debug)]
pub struct Source {
    pub kind: SourceType,
    pub tiles: Vec<Vec<u8>>,
    pub attribution: Option<Vec<u8>>,
}

/// The kind of data a source serves.
#[derive(Debug, Copy, Clone, PartialEq, Eq, Structural)]
pub enum SourceType {
    Vector,
    Raster,
    RasterDem,
    Geojson,
    Video,
    Image,
}

/// How a layer names its source: by name, or by index after remapping.
#[derive(Debug)]
pub enum SourceId {
    Name(Vec<u8>),
    Index(usize),
}

/// Mathematical model of a [`SourceId`].
pub enum SourceIdModel {
    Name(Seq<u8>),
    Index(int),
}

impl View for SourceId {
    type V = SourceIdModel;

    open spec fn view(&self) -> SourceIdModel {
        match self {
            SourceId::Name(n) => SourceIdModel::Name(n@),
            SourceId::Index(i) => SourceIdModel::Index(*i as int),
        }
    }
}

impl SourceId {
    /// An owned copy.
    pub fn dup(&self) -> (r: SourceId)
        ensures
            r@ == self@,
    {
        match self {
            SourceId::Name(n) => SourceId::Name(bytes_of(n.as_slice())),
            SourceId::Index(i) => SourceId::Index(*i),
        }
    }
}

/// The sources of a style, with their names in declaration order.
#[derive(Debug)]
pub struct SourceCollection {
    pub sources: Vec<Source>,
    pub names: Vec<Vec<u8>>,
}

/// The first position of a name in the name list.
pub open spec fn spec_position(names: Seq<Vec<u8>>, n: Seq<u8>) -> Option<int>
    decreases names.len(),
{
    if names.len() == 0 {
        None
    } else if names[0]@ == n {
        Some(0int)
    } else {
        match spec_position(names.skip(1), n) {
            Some(i) => Some(i + 1),
            None => None,
        }
    }
}

impl SourceCollection {
    pub open spec fn wf(self) -> bool {
        self.sources@.len() == self.names@.len()
    }

    /// The index a source id resolves to: a named id resolves to the first
    /// source of that name, an index id to itself.
    pub open spec fn spec_resolve(self, id: SourceIdModel) -> Option<int> {
        match id {
            SourceIdModel::Name(n) => spec_position(self.names@, n),
            SourceIdModel::Index(i) => Some(i),
        }
    }

    /// Finds the first source with the given name.
    #[verifier::loop_isolation(false)]
    pub fn position(&self, n: &[u8]) -> (r: Option<usize>)
        ensures
            match r {
                Some(i) => spec_position(self.names@, n@) == Some(i as int) && i
                    < self.names@.len(),
                None => spec_position(self.names@, n@) is None,
            },
    {
        let count = self.names.len();
        let mut i: usize = 0;
        assert(self.names@.skip(0) =~= self.names@);
        while i < count
            invariant
                0 <= i <= count,
                spec_position(self.names@, n@) == match spec_position(
                    self.names@.skip(i as int),
                    n@,
                ) {
                    Some(k) => Some(k + i),
                    None => None,
                },
            decreases count - i,
        {
            let ghost pre = self.names@.skip(i as int);
            assert(pre[0] == self.names@[i as int]);
            if bytes_eq(self.names[i].as_slice(), n) {
                return Some(i);
            }
            assert(pre.skip(1) =~= self.names@.skip(i as int + 1));
            i += 1;
        }
        None
    }

    /// The source a source id denotes, if any.
    pub fn get(&self, index: &SourceId) -> (r: Option<&Source>)
        requires
            self.wf(),
        ensures
            match r {
                Some(_) => {
                    &&& self.spec_resolve(index@) is Some
                    &&& 0 <= self.spec_resolve(index@).unwrap() < self.sources@.len()
                },
                None => match self.spec_resolve(index@) {
                    Some(i) => i >= self.sources@.len(),
                    None => true,
                },
            },
            match r {
                Some(s) => match self.spec_resolve(index@) {
                    Some(i) => *s == self.sources@[i],
                    None => false,
                },
                None => true,
            },
    {
        let idx = match index {
            SourceId::Name(n) => match self.position(n.as_slice()) {
                Some(i) => i,
                None => {
                    return None;
                },
            },
            SourceId::Index(i) => *i,
        };
        if idx < self.sources.len() {
            Some(&self.sources[idx])
        } else {
            None
        }
    }

    /// Turns a named source id into its index form, for cheaper lookups
    /// later; an id that names no source maps to nothing, and an index out of
    /// range maps to nothing.
    pub fn remap(&self, index: SourceId) -> (r: Option<SourceId>)
        requires
            self.wf(),
        ensures
            match self.spec_resolve(index@) {
                Some(i) => if i < self.sources@.len() {
                    match r {
                        Some(rid) => rid@ == SourceIdModel::Index(i),
                        None => false,
                    }
                } else {
                    r is None
                },
                None => r is None,
            },
    {
        match index {
            SourceId::Name(n) => match self.position(n.as_slice()) {
                Some(i) => {
                    if i < self.sources.len() {
                        Some(SourceId::Index(i))
                    } else {
                        None
                    }
                },
                None => None,
            },
            SourceId::Index(i) => {
                if i < self.sources.len() {
                    Some(SourceId::Index(i))
                } else {
                    None
                }
            },
        }
    }

    /// How many sources the collection holds.
    pub fn len(&self) -> (r: usize)
        ensures
            r == self.sources@.len(),
    {
        self.sources.len()
    }
}

} // verus!
