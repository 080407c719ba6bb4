//! The route table: which operation answers which method on which path.
//!
//! The table is data for the router of the HTTP framework, which does the
//! matching of request paths. What is proved here is what the router needs
//! of a table: no two routes claim the same method on the same path.

use crate::status::OK;
use vstd::prelude::*;

verus! {

/// The HTTP methods that the service answers.
#[derive(Debug, Clone, Copy, PartialEq, Eq, Structural)]
pub enum Method {
    Get,
    Post,
    Put,
    Delete,
}

/// The paths that the service answers.
#[derive(Debug, Clone, Copy, PartialEq, Eq, Structural)]
pub enum Endpoint {
    /// The root of the service.
    Root,
    /// The collection of posts.
    Posts,
    /// The search over the posts.
    Search,
    /// One post, named by its identifier.
    Post,
}

/// The operations of the service.
#[derive(Debug, Clone, Copy, PartialEq, Eq, Structural)]
pub enum Handler {
    Hello,
    CreatePost,
    FindAll,
    SearchPosts,
    FindById,
    UpdateById,
    DeleteById,
}

/// One line of the route table.
#[derive(Debug, Clone, Copy, PartialEq, Eq, Structural)]
pub struct Route {
    pub method: Method,
    pub endpoint: Endpoint,
    pub handler: Handler,
}

impl Endpoint {
    /// The path as the router takes it: a segment in braces stands for any
    /// one segment of a request path and gives it a name.
    pub open spec fn path_text(self) -> Seq<char> {
        match self {
            Endpoint::Root => "/"@,
            Endpoint::Posts => "/posts"@,
            Endpoint::Search => "/posts/search"@,
            Endpoint::Post => "/posts/{id}"@,
        }
    }

    /// The path as the router takes it.
    pub fn path(self) -> (text: &'static str)
        ensures
            text@ == self.path_text(),
    {
        match self {
            Endpoint::Root => "/",
            Endpoint::Posts => "/posts",
            Endpoint::Search => "/posts/search",
            Endpoint::Post => "/posts/{id}",
        }
    }
}

/// The route table of the service.
pub open spec fn route_table() -> Seq<Route> {
    seq![
        Route { method: Method::Get, endpoint: Endpoint::Root, handler: Handler::Hello },
        Route { method: Method::Post, endpoint: Endpoint::Posts, handler: Handler::CreatePost },
        Route { method: Method::Get, endpoint: Endpoint::Posts, handler: Handler::FindAll },
        Route { method: Method::Get, endpoint: Endpoint::Search, handler: Handler::SearchPosts },
        Route { method: Method::Get, endpoint: Endpoint::Post, handler: Handler::FindById },
        Route { method: Method::Put, endpoint: Endpoint::Post, handler: Handler::UpdateById },
        Route { method: Method::Delete, endpoint: Endpoint::Post, handler: Handler::DeleteById },
    ]
}

/// The route table of the service, to register with the router.
pub fn setup_routes() -> (routes: Vec<Route>)
    ensures
        routes@ == route_table(),
{
    let mut routes: Vec<Route> = Vec::new();
    routes.push(Route { method: Method::Get, endpoint: Endpoint::Root, handler: Handler::Hello });
    routes.push(
        Route { method: Method::Post, endpoint: Endpoint::Posts, handler: Handler::CreatePost },
    );
    routes.push(Route { method: Method::Get, endpoint: Endpoint::Posts, handler: Handler::FindAll });
    routes.push(
        Route { method: Method::Get, endpoint: Endpoint::Search, handler: Handler::SearchPosts },
    );
    routes.push(Route { method: Method::Get, endpoint: Endpoint::Post, handler: Handler::FindById });
    routes.push(
        Route { method: Method::Put, endpoint: Endpoint::Post, handler: Handler::UpdateById },
    );
    routes.push(
        Route { method: Method::Delete, endpoint: Endpoint::Post, handler: Handler::DeleteById },
    );
    proof {
        assert(routes@ =~= route_table());
    }
    routes
}

/// What the root of the service answers: a greeting, with the status of
/// success. No statement is named for it, so it never reaches the database.
pub fn hello() -> (answer: (u16, &'static str))
    ensures
        answer.0 == OK,
        answer.1@ == "Hello, World!"@,
{
    (OK, "Hello, World!")
}

/// No two routes of the table claim the same method on the same endpoint.
pub proof fn lemma_routes_do_not_overlap(first: int, second: int)
    requires
        0 <= first < second < route_table().len(),
    ensures
        !(route_table()[first].method == route_table()[second].method && route_table()[first].endpoint
            == route_table()[second].endpoint),
{
}

/// Two different endpoints have different paths.
pub proof fn lemma_paths_are_distinct(first: Endpoint, second: Endpoint)
    requires
        first != second,
    ensures
        first.path_text() != second.path_text(),
{
    reveal_strlit("/");
    reveal_strlit("/posts");
    reveal_strlit("/posts/search");
    reveal_strlit("/posts/{id}");
    assert(first.path_text().len() != second.path_text().len());
}

/// Every operation is offered by exactly one route of the table.
pub proof fn lemma_every_handler_is_routed_once(handler: Handler)
    ensures
        exists|line: int|
            0 <= line < route_table().len() && #[trigger] route_table()[line].handler == handler
                && forall|other: int|
                0 <= other < route_table().len() && #[trigger] route_table()[other].handler
                    == handler ==> other == line,
{
    let line: int = match handler {
        Handler::Hello => 0,
        Handler::CreatePost => 1,
        Handler::FindAll => 2,
        Handler::SearchPosts => 3,
        Handler::FindById => 4,
        Handler::UpdateById => 5,
        Handler::DeleteById => 6,
    };
    assert(route_table()[line].handler == handler);
}

} // verus!
