//! Routing of inbound messages by method name to registered handlers.

use vstd::prelude::*;

use crate::codec::DeserializeError;
use crate::text::str_eq;

verus! {

/// Error from an execution function.
#[derive(Debug, Clone, Copy, PartialEq, Eq, Structural)]
pub enum ExecError {
    /// No handler is routed for the method.
    RouteFailed,
    /// Parsing the inbound message failed.
    ParseError(DeserializeError),
    /// A request was received on a notification handler.
    RequestOnNotifyHandler,
}

impl From<DeserializeError> for ExecError {
    fn from(e: DeserializeError) -> (r: ExecError) {
        ExecError::ParseError(e)
    }
}

impl vstd::std_specs::convert::FromSpecImpl<DeserializeError> for ExecError {
    open spec fn obeys_from_spec() -> bool {
        true
    }

    open spec fn from_spec(e: DeserializeError) -> ExecError {
        ExecError::ParseError(e)
    }
}

/// A function which routes a method (query) to an internal handler index.
pub trait RouterFunc {
    fn route(&self, query: &str) -> Option<usize>;
}

/// A router function builder.
pub trait RouterFuncBuilder {
    type Error;
    type Func: RouterFunc;

    /// Adds a route for `expression` to handler index `value`; fails if the
    /// expression is already registered.
    fn add_route(&mut self, expression: &str, value: usize) -> Result<(), Self::Error>;

    fn finish(self) -> Self::Func;
}

/// The map that route entries describe: later entries hide earlier ones with
/// the same name.
pub open spec fn entries_map(s: Seq<(String, usize)>) -> Map<Seq<char>, usize>
    decreases s.len(),
{
    if s.len() == 0 {
        Map::empty()
    } else {
        entries_map(s.drop_last()).insert(s.last().0@, s.last().1)
    }
}

/// No two entries have the same name.
pub open spec fn distinct_names(s: Seq<(String, usize)>) -> bool {
    forall|i: int, j: int| 0 <= i < j < s.len() ==> s[i].0@ != s[j].0@
}

proof fn lemma_entries_map(s: Seq<(String, usize)>, k: Seq<char>)
    requires
        distinct_names(s),
    ensures
        entries_map(s).contains_key(k) <==> exists|i: int| 0 <= i < s.len() && s[i].0@ == k,
        forall|i: int|
            0 <= i < s.len() && s[i].0@ == k ==> entries_map(s).contains_key(k) && entries_map(s)[k]
                == s[i].1,
    decreases s.len(),
{
    if s.len() > 0 {
        let t = s.drop_last();
        let last = s.len() - 1;
        assert(distinct_names(t));
        lemma_entries_map(t, k);
        if s[last].0@ != k {
            if entries_map(s).contains_key(k) {
                let i = choose|i: int| 0 <= i < t.len() && t[i].0@ == k;
                assert(s[i] == t[i]);
            }
            if exists|i: int| 0 <= i < s.len() && s[i].0@ == k {
                let i = choose|i: int| 0 <= i < s.len() && s[i].0@ == k;
                assert(i != last);
                assert(t[i] == s[i]);
            }
            assert forall|i: int| 0 <= i < s.len() && s[i].0@ == k implies entries_map(s).contains_key(k)
                && entries_map(s)[k] == s[i].1 by {
                assert(i != last);
                assert(t[i] == s[i]);
            }
        } else {
            assert(0 <= last < s.len() && s[last].0@ == k);
            assert forall|i: int| 0 <= i < s.len() && s[i].0@ == k implies entries_map(s).contains_key(k)
                && entries_map(s)[k] == s[i].1 by {
                if i != last {
                    assert(s[i].0@ != s[last].0@);
                }
            }
        }
    }
}

proof fn lemma_entries_update(s: Seq<(String, usize)>, i: int, e: (String, usize))
    requires
        distinct_names(s),
        0 <= i < s.len(),
        e.0@ == s[i].0@,
    ensures
        entries_map(s.update(i, e)) == entries_map(s).insert(e.0@, e.1),
    decreases s.len(),
{
    let n = s.update(i, e);
    let t = s.drop_last();
    let last = s.len() - 1;
    if i == last {
        assert(n.drop_last() =~= t);
        assert(entries_map(n) =~= entries_map(s).insert(e.0@, e.1));
    } else {
        assert(distinct_names(t));
        assert(n.drop_last() =~= t.update(i, e));
        lemma_entries_update(t, i, e);
        assert(s[i].0@ != s[last].0@);
        assert(entries_map(n) =~= entries_map(s).insert(e.0@, e.1));
    }
}

/// A route table from method names to handler indices.
#[derive(Debug)]
pub struct RouteTable {
    entries: Vec<(String, usize)>,
}

impl View for RouteTable {
    type V = Map<Seq<char>, usize>;

    closed spec fn view(&self) -> Map<Seq<char>, usize> {
        entries_map(self.entries@)
    }
}

impl RouteTable {
    #[verifier::type_invariant]
    spec fn wf(self) -> bool {
        distinct_names(self.entries@)
    }

    /// An empty route table.
    pub fn new() -> (r: RouteTable)
        ensures
            r@ == Map::<Seq<char>, usize>::empty(),
    {
        RouteTable { entries: Vec::new() }
    }

    fn find(&self, query: &str) -> (r: Option<usize>)
        ensures
            match r {
                Some(i) => i < self.entries@.len() && self.entries@[i as int].0@ == query@,
                None => forall|i: int| 0 <= i < self.entries@.len() ==> self.entries@[i].0@ != query@,
            },
    {
        let mut i: usize = 0;
        while i < self.entries.len()
            invariant
                i <= self.entries@.len(),
                forall|j: int| 0 <= j < i ==> self.entries@[j].0@ != query@,
            decreases self.entries@.len() - i,
        {
            if str_eq(self.entries[i].0.as_str(), query) {
                return Some(i);
            }
            i = i + 1;
        }
        None
    }

    /// The handler index routed for `query`.
    pub fn lookup(&self, query: &str) -> (r: Option<usize>)
        ensures
            r == if self@.contains_key(query@) {
                Some(self@[query@])
            } else {
                None
            },
    {
        proof {
            use_type_invariant(self);
            lemma_entries_map(self.entries@, query@);
        }
        match self.find(query) {
            Some(i) => Some(self.entries[i].1),
            None => None,
        }
    }

    /// Routes `path` to `value`. The new route replaces any route of the same
    /// path; the result is `Err` when the path was already routed.
    pub fn insert_route(&mut self, path: &str, value: usize) -> (r: Result<(), ()>)
        ensures
            final(self)@ == old(self)@.insert(path@, value),
            r is Ok <==> !old(self)@.contains_key(path@),
    {
        proof {
            use_type_invariant(&*self);
            lemma_entries_map(self.entries@, path@);
        }
        let ghost old_entries = self.entries@;
        match self.find(path) {
            Some(i) => {
                let name = path.to_owned();
                let mut entries: Vec<(String, usize)> = Vec::new();
                core::mem::swap(&mut entries, &mut self.entries);
                entries.set(i, (name, value));
                proof {
                    lemma_entries_update(old_entries, i as int, (name, value));
                    assert(entries@ =~= old_entries.update(i as int, (name, value)));
                    assert forall|a: int, b: int| 0 <= a < b < entries@.len() implies entries@[a].0@
                        != entries@[b].0@ by {
                        assert(entries@[a].0@ == old_entries[a].0@);
                        assert(entries@[b].0@ == old_entries[b].0@);
                    }
                }
                self.entries = entries;
                Err(())
            },
            None => {
                let name = path.to_owned();
                let mut entries: Vec<(String, usize)> = Vec::new();
                core::mem::swap(&mut entries, &mut self.entries);
                entries.push((name, value));
                proof {
                    assert(entries@.drop_last() =~= old_entries);
                    assert forall|a: int, b: int| 0 <= a < b < entries@.len() implies entries@[a].0@
                        != entries@[b].0@ by {
                        if b < old_entries.len() {
                            assert(entries@[a] == old_entries[a]);
                            assert(entries@[b] == old_entries[b]);
                        } else {
                            assert(entries@[a] == old_entries[a]);
                        }
                    }
                }
                self.entries = entries;
                Ok(())
            },
        }
    }
}

impl RouterFunc for RouteTable {
    fn route(&self, query: &str) -> (r: Option<usize>)
        ensures
            r == if self@.contains_key(query@) {
                Some(self@[query@])
            } else {
                None
            },
    {
        self.lookup(query)
    }
}

impl RouterFuncBuilder for RouteTable {
    type Error = ();
    type Func = RouteTable;

    fn add_route(&mut self, expression: &str, value: usize) -> (r: Result<(), ()>)
        ensures
            final(self)@ == old(self)@.insert(expression@, value),
            r is Ok <==> !old(self)@.contains_key(expression@),
    {
        self.insert_route(expression, value)
    }

    fn finish(self) -> (r: RouteTable)
        ensures
            r == self,
    {
        self
    }
}

/// A route registered with a path reads back the handler index it was
/// registered with, and leaves every other path's route unchanged.
pub proof fn lemma_route_after_insert(
    before: Map<Seq<char>, usize>,
    path: Seq<char>,
    value: usize,
    other: Seq<char>,
)
    requires
        other != path,
    ensures
        before.insert(path, value).contains_key(path),
        before.insert(path, value)[path] == value,
        before.insert(path, value).contains_key(other) == before.contains_key(other),
        before.contains_key(other) ==> before.insert(path, value)[other] == before[other],
{
}

/// Routes inbound messages to handlers by method name.
pub struct Router<H> {
    route_func: RouteTable,
    funcs: Vec<H>,
}

/// Builds a [`Router`] by registering handlers and their routes.
pub struct RouterBuilder<H> {
    inner: Router<H>,
}

impl<H> View for Router<H> {
    /// The routes and the registered handlers.
    type V = (Map<Seq<char>, usize>, Seq<H>);

    closed spec fn view(&self) -> (Map<Seq<char>, usize>, Seq<H>) {
        (self.route_func@, self.funcs@)
    }
}

impl<H> View for RouterBuilder<H> {
    type V = (Map<Seq<char>, usize>, Seq<H>);

    closed spec fn view(&self) -> (Map<Seq<char>, usize>, Seq<H>) {
        self.inner@
    }
}

impl<H> Default for RouterBuilder<H> {
    fn default() -> (r: RouterBuilder<H>)
        ensures
            r@.0 == Map::<Seq<char>, usize>::empty(),
            r@.1 == Seq::<H>::empty(),
    {
        RouterBuilder::new(RouteTable::new())
    }
}

impl<H> RouterBuilder<H> {
    /// A builder with the routes of `builder` and no handler.
    pub fn new(builder: RouteTable) -> (r: RouterBuilder<H>)
        ensures
            r@.0 == builder@,
            r@.1 == Seq::<H>::empty(),
    {
        RouterBuilder { inner: Router { route_func: builder, funcs: Vec::new() } }
    }

    /// Registers a handler with no route yet.
    pub fn push_handler(&mut self, func: H)
        ensures
            final(self)@.0 == old(self)@.0,
            final(self)@.1 == old(self)@.1.push(func),
    {
        self.inner.funcs.push(func);
    }

    /// Routes `alias` to the last registered handler (a handler must have
    /// been registered). The route replaces any earlier route of `alias`;
    /// the result is `Err` when `alias` was already routed.
    pub fn try_add_route_to_last(&mut self, alias: &str) -> (r: Result<(), ()>)
        requires
            old(self)@.1.len() > 0,
        ensures
            final(self)@.0 == old(self)@.0.insert(alias@, (old(self)@.1.len() - 1) as usize),
            final(self)@.1 == old(self)@.1,
            r is Ok <==> !old(self)@.0.contains_key(alias@),
    {
        let last = self.inner.funcs.len() - 1;
        self.inner.route_func.insert_route(alias, last)
    }

    /// Unregisters the last handler, if any; routes are left as they are.
    pub fn pop_handler(&mut self)
        ensures
            final(self)@.0 == old(self)@.0,
            old(self)@.1.len() > 0 ==> final(self)@.1 == old(self)@.1.drop_last(),
            old(self)@.1.len() == 0 ==> final(self)@.1 == old(self)@.1,
    {
        self.inner.funcs.pop();
    }

    /// Routes `path` to a new handler `func`. On success the handler is
    /// registered and its index returned. When `path` was already routed the
    /// result is `Err` and the handler is not registered, yet the route of
    /// `path` is still replaced by the index the handler would have had.
    pub fn try_add_routed_handler(&mut self, path: &str, func: H) -> (r: Result<usize, ()>)
        ensures
            final(self)@.0 == old(self)@.0.insert(path@, old(self)@.1.len() as usize),
            !old(self)@.0.contains_key(path@) ==> r == Ok::<usize, ()>(old(self)@.1.len() as usize)
                && final(self)@.1 == old(self)@.1.push(func),
            old(self)@.0.contains_key(path@) ==> r == Err::<usize, ()>(()) && final(self)@.1 == old(
                self,
            )@.1,
    {
        let value = self.inner.funcs.len();
        match self.inner.route_func.insert_route(path, value) {
            Ok(()) => {
                self.inner.funcs.push(func);
                Ok(value)
            },
            Err(()) => Err(()),
        }
    }

    /// The router with the registered routes and handlers.
    pub fn finish(self) -> (r: Router<H>)
        ensures
            r@ == self@,
    {
        self.inner
    }
}

impl<H> Router<H> {
    /// Routes an inbound message, whose method is `method`, to its handler.
    /// Without a route the message is handed back with `RouteFailed`;
    /// otherwise the routed handler runs on it, and the message is handed
    /// back with the handler's error, when the handler fails. The route of
    /// `method` must name a registered handler.
    pub fn route<I>(&self, method: &str, inbound: I) -> (r: Result<(), (Option<I>, ExecError)>)
        where H: Fn(&mut Option<I>) -> Result<(), ExecError>
        requires
            self@.0.contains_key(method@) ==> self@.0[method@] < self@.1.len(),
            forall|h: &H, x: &mut Option<I>| call_requires(*h, (x,)),
        ensures
            !self@.0.contains_key(method@) ==> r == Err::<(), (Option<I>, ExecError)>(
                (Some(inbound), ExecError::RouteFailed),
            ),
            self@.0.contains_key(method@) ==> exists|m: &mut Option<I>, res: Result<(), ExecError>|
                #[trigger] call_ensures(self@.1[self@.0[method@] as int], (m,), res) && *m == Some(inbound)
                    && r == match res {
                    Ok(()) => Ok::<(), (Option<I>, ExecError)>(()),
                    Err(e) => Err((*final(m), e)),
                },
    {
        match self.route_func.lookup(method) {
            None => Err((Some(inbound), ExecError::RouteFailed)),
            Some(index) => {
                let mut opt_inbound = Some(inbound);
                let f = &self.funcs[index];
                match f(&mut opt_inbound) {
                    Ok(()) => Ok(()),
                    Err(e) => Err((opt_inbound, e)),
                }
            },
        }
    }
}

/// What a route installation does when adding a route fails.
#[derive(Debug, Clone, Copy, PartialEq, Eq, Structural)]
pub enum RouteFailResponse {
    /// Ignore the error and continue to route.
    IgnoreAndContinue,
    /// Panic; the default behavior.
    Panic,
    /// Abort the route installation; the router is left partially built.
    Abort,
}

impl From<()> for RouteFailResponse {
    fn from(_v: ()) -> (r: RouteFailResponse) {
        RouteFailResponse::Panic
    }
}

impl vstd::std_specs::convert::FromSpecImpl<()> for RouteFailResponse {
    open spec fn obeys_from_spec() -> bool {
        true
    }

    open spec fn from_spec(_v: ()) -> RouteFailResponse {
        RouteFailResponse::Panic
    }
}

impl From<bool> for RouteFailResponse {
    fn from(value: bool) -> (r: RouteFailResponse) {
        if value {
            RouteFailResponse::IgnoreAndContinue
        } else {
            RouteFailResponse::Abort
        }
    }
}

impl vstd::std_specs::convert::FromSpecImpl<bool> for RouteFailResponse {
    open spec fn obeys_from_spec() -> bool {
        true
    }

    open spec fn from_spec(value: bool) -> RouteFailResponse {
        if value {
            RouteFailResponse::IgnoreAndContinue
        } else {
            RouteFailResponse::Abort
        }
    }
}

} // verus!
