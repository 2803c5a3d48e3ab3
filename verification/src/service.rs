//! The route function of a service router: method paths to handler indices.

use vstd::prelude::*;
use crate::route::RouteTable;

verus! {

/// Maps method paths to handler indices; built by adding routes, then
/// finished for lookups.
pub trait RouteFunction: Sized {
    type BuildError;
    type Finish;

    fn add_route(&mut self, path: &str, target: usize) -> Result<(), Self::BuildError>;

    fn finish(self) -> Result<Self::Finish, Self::BuildError>;

    fn route(&self, query: &str) -> Option<usize>;
}

impl RouteFunction for RouteTable {
    /// A path that was already routed.
    type BuildError = ();
    type Finish = RouteTable;

    fn add_route(&mut self, path: &str, target: usize) -> (r: Result<(), ()>)
        ensures
            r is Ok <==> !old(self)@.contains_key(path@),
            final(self)@ == old(self)@.insert(path@, target),
    {
        self.insert_route(path, target)
    }

    fn finish(self) -> (r: Result<RouteTable, ()>)
        ensures
            r matches Ok(t) && t@ == self@,
    {
        Ok(self)
    }

    fn route(&self, query: &str) -> (r: Option<usize>)
        ensures
            r == (if self@.contains_key(query@) {
                Some(self@[query@])
            } else {
                None
            }),
    {
        self.lookup(query)
    }
}

} // verus!
