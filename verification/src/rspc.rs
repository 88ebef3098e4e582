//! The queries that the frontend can ask, by name.
//!
//! The router here is a plain description: it lists the queries and says
//! what each answers. Serving them over a transport is the caller's part.

use vstd::prelude::*;

verus! {

/// The version of this crate, which the query `version` answers with.
pub const VERSION: &'static str = "0.1.0";

/// What a query does.
#[derive(Clone, Copy, Debug, PartialEq, Eq, Structural)]
pub enum Procedure {
    /// Answers with [`VERSION`].
    Version,
}

impl Procedure {
    /// What the procedure answers with.
    pub open spec fn spec_run(self) -> Seq<char> {
        match self {
            Procedure::Version => VERSION@,
        }
    }

    /// Runs the procedure.
    pub fn run(self) -> (answer: String)
        ensures
            answer@ == self.spec_run(),
    {
        match self {
            Procedure::Version => VERSION.to_owned(),
        }
    }
}

/// A router: its queries, each with its name and what it does.
#[derive(Debug)]
pub struct Router {
    pub queries: Vec<(String, Procedure)>,
}

impl View for Router {
    type V = Seq<(Seq<char>, Procedure)>;

    open spec fn view(&self) -> Seq<(Seq<char>, Procedure)> {
        Seq::new(self.queries@.len(), |i: int| (self.queries@[i].0@, self.queries@[i].1))
    }
}

/// The procedure of the first query with the given name.
pub open spec fn route(queries: Seq<(Seq<char>, Procedure)>, name: Seq<char>) -> Option<
    Procedure,
>
    decreases queries.len(),
{
    if queries.len() == 0 {
        None
    } else if queries[0].0 == name {
        Some(queries[0].1)
    } else {
        route(queries.drop_first(), name)
    }
}

impl Router {
    /// What the router answers to the query `name`, or `None` where it has no
    /// such query.
    pub open spec fn spec_answer(self, name: Seq<char>) -> Option<Seq<char>> {
        match route(self@, name) {
            Some(procedure) => Some(procedure.spec_run()),
            None => None,
        }
    }

    /// Answers the query `name`, or gives `None` where the router has no such
    /// query.
    pub fn answer(&self, name: &str) -> (answer: Option<String>)
        ensures
            answer.deep_view() == self.spec_answer(name@),
    {
        let wanted = name.to_owned();
        let mut i: usize = 0;
        proof {
            assert(self@.skip(0) =~= self@);
        }
        while i < self.queries.len()
            invariant
                i <= self.queries.len(),
                wanted@ == name@,
                route(self@, name@) == route(self@.skip(i as int), name@),
            decreases self.queries.len() - i,
        {
            if self.queries[i].0 == wanted {
                return Some(self.queries[i].1.run());
            }
            proof {
                assert(self@.skip(i as int).drop_first() =~= self@.skip(i + 1));
            }
            i += 1;
        }
        None
    }
}

/// Builds the router of this crate.
#[derive(Default)]
pub struct RouterBuilder;

impl RouterBuilder {
    /// The queries of the router that [`RouterBuilder::build`] makes.
    pub open spec fn queries() -> Seq<(Seq<char>, Procedure)> {
        seq![("version"@, Procedure::Version)]
    }

    /// Build the RSPC router: it has the one query `version`.
    pub fn build(self) -> (router: Router)
        ensures
            router@ == RouterBuilder::queries(),
            router.spec_answer("version"@) == Some(VERSION@),
    {
        let mut queries: Vec<(String, Procedure)> = Vec::new();
        queries.push(("version".to_owned(), Procedure::Version));
        let router = Router { queries };
        proof {
            assert(router@ =~= RouterBuilder::queries());
        }
        router
    }
}

} // verus!
