//! The route table: exact path match, one handler per path. Handlers are
//! code owned by the surrounding program, so the table stores a
//! caller-chosen handler index and never interprets it.

use vstd::prelude::*;

use crate::response::HttpResponse;
use crate::text::str_eq;

verus! {

/// Names a handler owned by the surrounding program.
pub type HandlerId = usize;

/// Maps an exact path to a handler. No wildcard or prefix matching; a
/// later registration for a path replaces the earlier one.
pub struct Router {
    routes: Vec<(String, HandlerId)>,
}

/// First handler registered under exactly `path`.
pub open spec fn spec_route_lookup(routes: Seq<(Seq<char>, HandlerId)>, path: Seq<char>) -> Option<
    HandlerId,
>
    decreases routes.len(),
{
    if routes.len() == 0 {
        None
    } else if routes[0].0 == path {
        Some(routes[0].1)
    } else {
        spec_route_lookup(routes.drop_first(), path)
    }
}

/// Registration replaces the entry with the same path, or appends.
pub open spec fn spec_route_add(
    routes: Seq<(Seq<char>, HandlerId)>,
    path: Seq<char>,
    handler: HandlerId,
) -> Seq<(Seq<char>, HandlerId)>
    decreases routes.len(),
{
    if routes.len() == 0 {
        seq![(path, handler)]
    } else if routes[0].0 == path {
        seq![(path, handler)] + routes.drop_first()
    } else {
        seq![routes[0]] + spec_route_add(routes.drop_first(), path, handler)
    }
}

impl View for Router {
    type V = Seq<(Seq<char>, HandlerId)>;

    closed spec fn view(&self) -> Seq<(Seq<char>, HandlerId)> {
        Seq::new(self.routes@.len(), |i: int| (self.routes@[i].0@, self.routes@[i].1))
    }
}

proof fn lemma_route_add_found(
    routes: Seq<(Seq<char>, HandlerId)>,
    path: Seq<char>,
    handler: HandlerId,
    k: int,
)
    requires
        0 <= k < routes.len(),
        routes[k].0 == path,
        forall|i: int| 0 <= i < k ==> routes[i].0 != path,
    ensures
        spec_route_add(routes, path, handler) =~= routes.update(k, (path, handler)),
    decreases k,
{
    if k == 0 {
        assert(spec_route_add(routes, path, handler) =~= routes.update(0, (path, handler)));
    } else {
        assert(forall|i: int|
            0 <= i < k - 1 ==> routes.drop_first()[i] == routes[i + 1] && routes.drop_first()[i].0
                != path);
        assert(routes.drop_first()[k - 1] == routes[k]);
        lemma_route_add_found(routes.drop_first(), path, handler, k - 1);
        assert(spec_route_add(routes, path, handler) =~= seq![routes[0]]
            + routes.drop_first().update(k - 1, (path, handler)));
    }
}

proof fn lemma_route_add_missing(
    routes: Seq<(Seq<char>, HandlerId)>,
    path: Seq<char>,
    handler: HandlerId,
)
    requires
        forall|i: int| 0 <= i < routes.len() ==> routes[i].0 != path,
    ensures
        spec_route_add(routes, path, handler) =~= routes.push((path, handler)),
    decreases routes.len(),
{
    if routes.len() > 0 {
        assert(forall|i: int|
            0 <= i < routes.drop_first().len() ==> routes.drop_first()[i] == routes[i + 1]
                && routes.drop_first()[i].0 != path);
        lemma_route_add_missing(routes.drop_first(), path, handler);
        assert(spec_route_add(routes, path, handler) =~= seq![routes[0]]
            + routes.drop_first().push((path, handler)));
    }
}

impl Router {
    /// Paths are registered at most once each.
    pub open spec fn wf(&self) -> bool {
        forall|i: int, j: int| 0 <= i < j < self@.len() ==> self@[i].0 != self@[j].0
    }

    pub fn new() -> (r: Router)
        ensures
            r@ =~= Seq::<(Seq<char>, HandlerId)>::empty(),
            r.wf(),
    {
        Router { routes: Vec::new() }
    }

    /// Binds `path` to `handler`; a repeated path keeps only this
    /// latest handler.
    pub fn add_route(&mut self, path: &str, handler: HandlerId)
        requires
            old(self).wf(),
        ensures
            final(self)@ == spec_route_add(old(self)@, path@, handler),
            final(self).wf(),
    {
        let n = self.routes.len();
        let mut idx: usize = 0;
        while idx < n
            invariant
                self == old(self),
                old(self).wf(),
                n == self.routes.len(),
                idx <= n,
                forall|i: int| 0 <= i < idx ==> self@[i].0 != path@,
            decreases n - idx,
        {
            if str_eq(self.routes[idx].0.as_str(), path) {
                self.routes.remove(idx);
                self.routes.insert(idx, (String::from_str(path), handler));
                proof {
                    lemma_route_add_found(old(self)@, path@, handler, idx as int);
                    assert(self@ =~~= old(self)@.update(idx as int, (path@, handler)));
                    assert(old(self)@[idx as int].0 == path@);
                    assert forall|i: int, j: int|
                        0 <= i < j < self@.len() implies self@[i].0 != self@[j].0 by {
                        assert(old(self)@[i].0 != old(self)@[j].0);
                    }
                }
                return;
            }
            idx = idx + 1;
        }
        self.routes.push((String::from_str(path), handler));
        proof {
            lemma_route_add_missing(old(self)@, path@, handler);
            assert(self@ =~~= old(self)@.push((path@, handler)));
        }
    }

    /// The handler bound to exactly `path`, when one is.
    pub fn route_for(&self, path: &str) -> (r: Option<HandlerId>)
        ensures
            match r {
                Some(h) => spec_route_lookup(self@, path@) == Some(h),
                None => spec_route_lookup(self@, path@) is None,
            },
    {
        let n = self.routes.len();
        proof {
            assert(self@.skip(0) =~= self@);
        }
        let mut idx: usize = 0;
        while idx < n
            invariant
                n == self.routes.len(),
                idx <= n,
                spec_route_lookup(self@, path@) == spec_route_lookup(
                    self@.skip(idx as int),
                    path@,
                ),
            decreases n - idx,
        {
            proof {
                assert(self@.skip(idx as int)[0] == self@[idx as int]);
                assert(self@.skip(idx as int).drop_first() =~= self@.skip(idx as int + 1));
            }
            if str_eq(self.routes[idx].0.as_str(), path) {
                return Some(self.routes[idx].1);
            }
            idx = idx + 1;
        }
        None
    }
}

/// Turns a response into the not-found answer: status 404, body the
/// not-found content that the surrounding program fetched. A failure of
/// that fetch is the caller's `ContentLookupError`.
pub fn not_found(res: &mut HttpResponse, content: String)
    requires
        old(res).wf(),
    ensures
        final(res).wf(),
        final(res)@.status_code == 404,
        final(res)@.body == content@,
        final(res)@.headers == old(res)@.headers,
{
    res.body = content;
    res.status_code = 404;
}

/// Turns a response into the internal-failure answer: status 500 with an
/// empty body. Used when a request's external content (a handler's file,
/// the not-found page) could not be fetched but the connection can still
/// be answered.
pub fn internal_error(res: &mut HttpResponse)
    requires
        old(res).wf(),
    ensures
        final(res).wf(),
        final(res)@.status_code == 500,
        final(res)@.body =~= Seq::<char>::empty(),
        final(res)@.headers == old(res)@.headers,
{
    res.body = String::new();
    res.status_code = 500;
}

} // verus!
