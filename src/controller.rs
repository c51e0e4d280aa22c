//! Controllers turn the resource limits of a specification into the named
//! properties of one service-manager transaction.
use crate::runtime::LinuxResources;
use vstd::prelude::*;

verus! {

/// Wire type of a property value.
#[derive(Clone, Copy, Debug, PartialEq, Eq, Structural)]
pub enum ArgType {
    UInt64,
    Int64,
    Boolean,
    Str,
}

/// A property value as the transaction carries it.
#[derive(Clone, Debug, PartialEq, Eq)]
pub enum PropertyValue {
    UInt64(u64),
    Int64(i64),
    Boolean(bool),
    Str(String),
}

impl PropertyValue {
    pub fn arg_type(&self) -> (r: ArgType)
        ensures
            r == match self {
                PropertyValue::UInt64(_) => ArgType::UInt64,
                PropertyValue::Int64(_) => ArgType::Int64,
                PropertyValue::Boolean(_) => ArgType::Boolean,
                PropertyValue::Str(_) => ArgType::Str,
            },
    {
        match self {
            PropertyValue::UInt64(_) => ArgType::UInt64,
            PropertyValue::Int64(_) => ArgType::Int64,
            PropertyValue::Boolean(_) => ArgType::Boolean,
            PropertyValue::Str(_) => ArgType::Str,
        }
    }

    /// The value, where it is an unsigned 64-bit integer.
    pub fn as_u64(&self) -> (r: Option<u64>)
        ensures
            r == match self {
                PropertyValue::UInt64(v) => Some(*v),
                _ => None,
            },
    {
        match self {
            PropertyValue::UInt64(v) => Some(*v),
            _ => None,
        }
    }
}

/// Properties by name, each name at most once.
pub struct PropertySet {
    entries: Vec<(String, PropertyValue)>,
    contents: Ghost<Map<Seq<char>, PropertyValue>>,
}

impl View for PropertySet {
    type V = Map<Seq<char>, PropertyValue>;

    closed spec fn view(&self) -> Map<Seq<char>, PropertyValue> {
        self.contents@
    }
}

impl PropertySet {
    /// The entries hold each name once, and are exactly the map of the view.
    pub closed spec fn wf(&self) -> bool {
        let e = self.entries@;
        let m = self.contents@;
        &&& m.dom().finite()
        &&& m.len() == e.len()
        &&& forall|i: int|
            0 <= i < e.len() ==> m.contains_key((#[trigger] e[i]).0@) && m[e[i].0@] == e[i].1
        &&& forall|k: Seq<char>| #[trigger]
            m.contains_key(k) ==> exists|i: int| 0 <= i < e.len() && (#[trigger] e[i]).0@ == k
        &&& forall|i: int, j: int|
            0 <= i < j < e.len() ==> (#[trigger] e[i]).0@ != (#[trigger] e[j]).0@
    }

    pub fn new() -> (r: PropertySet)
        ensures
            r.wf(),
            r@ == Map::<Seq<char>, PropertyValue>::empty(),
    {
        PropertySet { entries: Vec::new(), contents: Ghost(Map::empty()) }
    }

    fn find(&self, name: &String) -> (r: Option<usize>)
        requires
            self.wf(),
        ensures
            r matches Some(i) ==> i < self.entries@.len() && self.entries@[i as int].0@ == name@,
            r is None ==> !self@.contains_key(name@),
    {
        let mut i: usize = 0;
        while i < self.entries.len()
            invariant
                self.wf(),
                i <= self.entries@.len(),
                forall|j: int| 0 <= j < i ==> (#[trigger] self.entries@[j]).0@ != name@,
            decreases self.entries@.len() - i,
        {
            if self.entries[i].0 == *name {
                return Some(i);
            }
            i = i + 1;
        }
        None
    }

    /// Sets the property `name` to `value`, replacing any earlier value.
    pub fn insert(&mut self, name: String, value: PropertyValue)
        requires
            old(self).wf(),
        ensures
            final(self).wf(),
            final(self)@ == old(self)@.insert(name@, value),
    {
        let ghost key = name@;
        let ghost m = self.contents@.insert(key, value);
        match self.find(&name) {
            Some(i) => {
                let ghost old_entries = self.entries@;
                self.entries.set(i, (name, value));
                self.contents = Ghost(m);
                proof {
                    assert(m.dom() =~= old(self)@.dom());
                    let e = self.entries@;
                    assert forall|k: Seq<char>| #[trigger] m.contains_key(k) implies exists|j: int|
                        0 <= j < e.len() && (#[trigger] e[j]).0@ == k by {
                        if k != key {
                            let j = choose|j: int|
                                0 <= j < old_entries.len() && (#[trigger] old_entries[j]).0@ == k;
                            assert(e[j] == old_entries[j]);
                        } else {
                            assert(e[i as int].0@ == k);
                        }
                    }
                }
            },
            None => {
                let ghost old_entries = self.entries@;
                self.entries.push((name, value));
                self.contents = Ghost(m);
                proof {
                    let e = self.entries@;
                    assert forall|k: Seq<char>| #[trigger] m.contains_key(k) implies exists|j: int|
                        0 <= j < e.len() && (#[trigger] e[j]).0@ == k by {
                        if k != key {
                            let j = choose|j: int|
                                0 <= j < old_entries.len() && (#[trigger] old_entries[j]).0@ == k;
                            assert(e[j] == old_entries[j]);
                        } else {
                            assert(e[e.len() - 1].0@ == k);
                        }
                    }
                    assert forall|a: int, b: int| 0 <= a < b < e.len() implies (#[trigger] e[a]).0@
                        != (#[trigger] e[b]).0@ by {
                        if b == e.len() - 1 {
                            assert(old_entries[a] == e[a]);
                            assert(old(self)@.contains_key(e[a].0@));
                        } else {
                            assert(old_entries[a] == e[a]);
                            assert(old_entries[b] == e[b]);
                        }
                    }
                }
            },
        }
    }

    /// The number of properties.
    pub fn len(&self) -> (r: usize)
        requires
            self.wf(),
        ensures
            r == self@.len(),
    {
        self.entries.len()
    }

    pub fn contains_key(&self, name: &str) -> (r: bool)
        requires
            self.wf(),
        ensures
            r == self@.contains_key(name@),
    {
        let n = name.to_owned();
        match self.find(&n) {
            Some(_) => true,
            None => false,
        }
    }

    /// The value of the property `name`, if it is set.
    pub fn get(&self, name: &str) -> (r: Option<&PropertyValue>)
        requires
            self.wf(),
        ensures
            r matches Some(v) ==> self@.contains_key(name@) && *v == self@[name@],
            r is None ==> !self@.contains_key(name@),
    {
        let n = name.to_owned();
        match self.find(&n) {
            Some(i) => Some(&self.entries[i].1),
            None => None,
        }
    }
}

/// State a freezer cgroup is asked to be in.
#[derive(Clone, Copy, Debug, PartialEq, Eq, Structural)]
pub enum FreezerState {
    Undefined,
    Frozen,
    Thawed,
}

/// What every controller is given: the resource limits and a few options
/// of the container.
pub struct ControllerOpt<'a> {
    pub resources: &'a LinuxResources,
    pub disable_oom_killer: bool,
    pub oom_score_adj: Option<i32>,
    pub freezer_state: Option<FreezerState>,
}

#[derive(Clone, Debug, PartialEq, Eq)]
pub enum ControllerError {
    /// The named controller could not build its properties.
    Apply { controller: String, reason: String },
}

/// A controller of one resource family. It adds the properties it owns for
/// the family, or, where it fails, leaves the properties as they were.
pub trait Controller {
    fn apply(options: &ControllerOpt, pid: u32, properties: &mut PropertySet) -> (r: Result<
        (),
        ControllerError,
    >)
        requires
            old(properties).wf(),
        ensures
            final(properties).wf(),
            r is Err ==> final(properties)@ == old(properties)@,
    ;
}

} // verus!
