//! Which requests the server takes.
use crate::config::Config;
use crate::connections::no_connections;
use crate::state::MyState;
use vstd::prelude::*;

verus! {

/// The method of a request.
#[derive(Clone, Copy, Debug, PartialEq, Eq, Structural)]
pub enum Method {
    Get,
    Post,
}

/// What answers a request.
#[derive(Clone, Copy, Debug, PartialEq, Eq, Structural)]
pub enum Handler {
    /// [`MyState::on_connect`].
    OnConnect,
    /// [`MyState::on_send`].
    OnSend,
}

/// Requests of a kind that the server takes.
#[derive(Debug)]
pub struct Route {
    pub method: Method,
    /// The path, in which a segment that begins with a colon is a parameter.
    pub path: String,
    pub handler: Handler,
}

/// Requests of a kind that the server takes, as contracts speak of them.
pub struct RouteView {
    pub method: Method,
    pub path: Seq<char>,
    pub handler: Handler,
}

impl View for Route {
    type V = RouteView;

    open spec fn view(&self) -> RouteView {
        RouteView { method: self.method, path: self.path@, handler: self.handler }
    }
}

/// What the server allows scripts of other origins.
#[derive(Debug)]
pub struct Cors {
    pub allow_origin: String,
    pub allow_methods: Vec<Method>,
}

/// What the server is made of.
pub struct Router {
    pub routes: Vec<Route>,
    pub cors: Cors,
    pub state: MyState,
}

/// The requests that clients connect with.
pub open spec fn connect_route() -> RouteView {
    RouteView { method: Method::Get, path: "/connect"@, handler: Handler::OnConnect }
}

/// The requests that frames are sent to clients with.
pub open spec fn send_route() -> RouteView {
    RouteView { method: Method::Post, path: "/send/:id"@, handler: Handler::OnSend }
}

/// The server for `config`, without any connection yet. It can be used from
/// scripts of every origin.
pub fn router(config: Config) -> (router: Router)
    ensures
        router.routes@.map_values(|route: Route| route@) == seq![connect_route(), send_route()],
        router.cors.allow_origin@ == "*"@,
        router.cors.allow_methods@ == seq![Method::Get, Method::Post],
        router.state.config == config,
        router.state.sinks@ == no_connections(),
{
    let mut routes: Vec<Route> = Vec::new();
    routes.push(
        Route {
            method: Method::Get,
            path: "/connect".to_owned(),
            handler: Handler::OnConnect,
        },
    );
    routes.push(
        Route { method: Method::Post, path: "/send/:id".to_owned(), handler: Handler::OnSend },
    );
    assert(routes@.map_values(|route: Route| route@) =~= seq![connect_route(), send_route()]);
    let mut allow_methods: Vec<Method> = Vec::new();
    allow_methods.push(Method::Get);
    allow_methods.push(Method::Post);
    Router {
        routes,
        cors: Cors { allow_origin: "*".to_owned(), allow_methods },
        state: MyState::new(config),
    }
}

} // verus!
