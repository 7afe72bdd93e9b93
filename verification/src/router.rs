//! The route table: which handler serves which method and path.
//!
//! A path matches a route only where the two are the same string; there are
//! no wildcards and no prefixes.

use vstd::prelude::*;
use crate::error::RequestError;

verus! {

/// The method of a request.
#[derive(Clone, Copy, Debug, PartialEq, Eq, Hash, Structural)]
pub enum Method {
    Get,
    Head,
    Post,
    Put,
    Delete,
    Connect,
    Options,
    Trace,
    Patch,
}

/// The handlers that a route can name.
#[derive(Clone, Copy, Debug, PartialEq, Eq, Hash, Structural)]
pub enum Handler {
    /// Answers with a greeting.
    Root,
    /// Makes a user out of the payload.
    CreateUser,
    /// Echoes the payload.
    Call,
}

/// One entry of the route table.
#[derive(Clone, Debug)]
struct Route {
    method: Method,
    path: String,
    handler: Handler,
}

impl Route {
    /// The method and path that this entry answers to.
    spec fn key(self) -> (Method, Seq<char>) {
        (self.method, self.path@)
    }
}

/// The table that a list of entries stands for. Where two entries answer to
/// the same method and path, the later one counts.
spec fn table_of(routes: Seq<Route>) -> Map<(Method, Seq<char>), Handler>
    decreases routes.len(),
{
    if routes.len() == 0 {
        Map::empty()
    } else {
        table_of(routes.drop_last()).insert(routes.last().key(), routes.last().handler)
    }
}

/// The handler that `table` names for `method` and `path`, or `NotFound`.
pub open spec fn lookup_spec(
    table: Map<(Method, Seq<char>), Handler>,
    method: Method,
    path: Seq<char>,
) -> Result<Handler, RequestError> {
    if table.contains_key((method, path)) {
        Ok(table[(method, path)])
    } else {
        Err(RequestError::NotFound)
    }
}

/// An entry that no later entry overrides is what the table holds for its
/// method and path.
proof fn lemma_last_match_wins(routes: Seq<Route>, key: (Method, Seq<char>), i: int)
    requires
        0 <= i < routes.len(),
        routes[i].key() == key,
        forall|j: int| i < j < routes.len() ==> (#[trigger] routes[j]).key() != key,
    ensures
        table_of(routes).contains_key(key),
        table_of(routes)[key] == routes[i].handler,
    decreases routes.len(),
{
    if i < routes.len() - 1 {
        let front = routes.drop_last();
        assert(front[i] == routes[i]);
        assert forall|j: int| i < j < front.len() implies (#[trigger] front[j]).key() != key by {
            assert(front[j] == routes[j]);
        }
        lemma_last_match_wins(front, key, i);
        assert(routes.last() == routes[routes.len() - 1]);
    }
}

/// A method and path that no entry answers to is not in the table.
proof fn lemma_no_match(routes: Seq<Route>, key: (Method, Seq<char>))
    requires
        forall|j: int| 0 <= j < routes.len() ==> (#[trigger] routes[j]).key() != key,
    ensures
        !table_of(routes).contains_key(key),
    decreases routes.len(),
{
    if routes.len() > 0 {
        let front = routes.drop_last();
        assert forall|j: int| 0 <= j < front.len() implies (#[trigger] front[j]).key() != key by {
            assert(front[j] == routes[j]);
        }
        lemma_no_match(front, key);
        assert(routes.last() == routes[routes.len() - 1]);
    }
}

/// A route table.
#[derive(Clone, Debug)]
pub struct Router {
    routes: Vec<Route>,
}

impl View for Router {
    type V = Map<(Method, Seq<char>), Handler>;

    /// The table as a map from method and path to handler.
    closed spec fn view(&self) -> Map<(Method, Seq<char>), Handler> {
        table_of(self.routes@)
    }
}

impl Router {
    /// A table without routes: every lookup in it fails.
    pub fn new() -> (router: Router)
        ensures
            router@ == Map::<(Method, Seq<char>), Handler>::empty(),
    {
        Router { routes: Vec::new() }
    }

    /// Registers `handler` for `method` and `path`, in place of the handler
    /// that was registered for them before, if there was one.
    pub fn route(self, method: Method, path: &str, handler: Handler) -> (router: Router)
        ensures
            router@ == self@.insert((method, path@), handler),
    {
        let mut routes = self.routes;
        let ghost before = routes@;
        routes.push(Route { method, path: path.to_owned(), handler });
        proof {
            assert(routes@.drop_last() =~= before);
        }
        Router { routes }
    }

    /// Selects the handler registered for `method` and `path`. The path must
    /// equal a registered path character for character.
    pub fn lookup(&self, method: Method, path: &str) -> (out: Result<Handler, RequestError>)
        ensures
            out == lookup_spec(self@, method, path@),
    {
        let wanted = path.to_owned();
        let mut i: usize = self.routes.len();
        while i > 0
            invariant
                i <= self.routes.len(),
                wanted@ == path@,
                forall|j: int|
                    i <= j < self.routes.len() ==> (#[trigger] self.routes@[j]).key() != (
                        method,
                        path@,
                    ),
            decreases i,
        {
            i = i - 1;
            let route = &self.routes[i];
            if route.method == method && route.path == wanted {
                proof {
                    lemma_last_match_wins(self.routes@, (method, path@), i as int);
                }
                return Ok(route.handler);
            }
        }
        proof {
            lemma_no_match(self.routes@, (method, path@));
        }
        Err(RequestError::NotFound)
    }
}

} // verus!
