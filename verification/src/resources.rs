//! What JavaScript holds by number between calls.
use std::collections::HashMap;
use vstd::prelude::*;
use crate::error::bad_resource_id;
use crate::error::bad_resource_view;
use crate::error::AnyError;

verus! {

/// What is held under a number.
#[derive(Clone, Copy, PartialEq, Eq, Structural, Debug)]
pub enum ResourceKind {
    TcpStream,
    HttpListener,
    ResponseSender,
    RequestBody,
    ResponseBody,
}

/// What is held, by number, and the number that comes next.
pub struct ResourceTable<T> {
    resources: HashMap<u32, (ResourceKind, T)>,
    next_rid: u32,
}

impl<T> View for ResourceTable<T> {
    type V = Map<u32, (ResourceKind, T)>;

    closed spec fn view(&self) -> Map<u32, (ResourceKind, T)> {
        self.resources@
    }
}

/// A resource of a kind is held under a number.
pub open spec fn holds<T>(table: Map<u32, (ResourceKind, T)>, rid: u32, kind: ResourceKind) -> bool {
    table.contains_key(rid) && table[rid].0 == kind
}

impl<T> ResourceTable<T> {
    /// The number that comes next.
    pub closed spec fn next(&self) -> u32 {
        self.next_rid
    }

    /// Everything is held under a number that was given out before.
    pub open spec fn wf(&self) -> bool {
        forall|rid: u32| #[trigger] self@.contains_key(rid) ==> rid < self.next()
    }

    /// Nothing is held yet.
    pub fn new() -> (r: ResourceTable<T>)
        ensures
            r.wf(),
            r@ == Map::<u32, (ResourceKind, T)>::empty(),
            r.next() == 0,
    {
        ResourceTable { resources: HashMap::new(), next_rid: 0 }
    }

    /// Whether there is a number left.
    pub fn has_room(&self) -> (r: bool)
        ensures
            r == (self.next() < u32::MAX),
    {
        self.next_rid < u32::MAX
    }

    /// Holds a resource under a number of its own.
    pub fn add_resource(&mut self, kind: ResourceKind, resource: T) -> (r: u32)
        requires
            old(self).wf(),
            old(self).next() < u32::MAX,
        ensures
            final(self).wf(),
            r == old(self).next(),
            !old(self)@.contains_key(r),
            final(self)@ == old(self)@.insert(r, (kind, resource)),
            final(self).next() == r + 1,
    {
        broadcast use vstd::std_specs::hash::group_hash_axioms;

        let ghost before = self@;
        let rid: u32 = self.next_rid;
        self.next_rid = rid + 1;
        self.resources.insert(rid, (kind, resource));
        assert forall|held: u32| #[trigger] self@.contains_key(held) implies held < self.next() by {
            if held != rid {
                assert(before.contains_key(held));
            }
        }
        rid
    }

    /// The resource of a kind under a number.
    pub fn get(&self, rid: u32, kind: ResourceKind) -> (r: Result<&T, AnyError>)
        ensures
            match r {
                Ok(resource) => holds(self@, rid, kind) && *resource == self@[rid].1,
                Err(e) => !holds(self@, rid, kind) && e@ == bad_resource_view(),
            },
    {
        broadcast use vstd::std_specs::hash::group_hash_axioms;

        match self.resources.get(&rid) {
            Some((held, resource)) if *held == kind => Ok(resource),
            _ => Err(bad_resource_id()),
        }
    }

    /// Takes the resource of a kind out from under a number, which then holds
    /// nothing.
    pub fn take(&mut self, rid: u32, kind: ResourceKind) -> (r: Result<T, AnyError>)
        requires
            old(self).wf(),
        ensures
            final(self).wf(),
            final(self).next() == old(self).next(),
            match r {
                Ok(resource) => {
                    &&& holds(old(self)@, rid, kind)
                    &&& resource == old(self)@[rid].1
                    &&& final(self)@ == old(self)@.remove(rid)
                },
                Err(e) => {
                    &&& !holds(old(self)@, rid, kind)
                    &&& e@ == bad_resource_view()
                    &&& final(self)@ == old(self)@
                },
            },
    {
        broadcast use vstd::std_specs::hash::group_hash_axioms;

        if let Err(e) = self.get(rid, kind) {
            return Err(e);
        }
        match self.resources.remove(&rid) {
            Some((_, resource)) => Ok(resource),
            None => Err(bad_resource_id()),
        }
    }
}

/// A resource is taken once: whoever asks for it afterwards finds none of any
/// kind under its number, and what is added later comes under another one. So a
/// request is answered once.
pub proof fn law_taken_once<T>(
    table: Map<u32, (ResourceKind, T)>,
    rid: u32,
    kind: ResourceKind,
    next: u32,
    other: ResourceKind,
    resource: T,
)
    requires
        holds(table, rid, kind),
        forall|held: u32| #[trigger] table.contains_key(held) ==> held < next,
    ensures
        forall|any: ResourceKind| !#[trigger] holds(table.remove(rid), rid, any),
        forall|any: ResourceKind| !#[trigger] holds(
            table.remove(rid).insert(next, (other, resource)),
            rid,
            any,
        ),
{
    assert(table.contains_key(rid));
}

} // verus!
