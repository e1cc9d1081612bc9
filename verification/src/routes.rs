//! The request paths of the user interface and the route each one takes.

use vstd::prelude::*;

use crate::response::Response;
use crate::text::same_text;

verus! {

/// The handler a request is dispatched to.
#[derive(PartialEq, Eq, Structural, Clone, Copy, Debug)]
pub enum Route {
    /// `/settings`: list the client settings.
    Settings,
    /// `/setting/update`: change one client setting.
    SettingUpdate,
    /// `/proxy`: list the proxies.
    Proxies,
    /// `/proxy/add`: add a proxy.
    ProxyAdd,
    /// `/proxy/edit`: edit a proxy.
    ProxyEdit,
    /// `/proxy/delete`: delete a proxy.
    ProxyDelete,
    /// `/proxy/enable`: switch a proxy on or off.
    ProxyEnable,
    /// `/export`: write the frpc configuration into a chosen directory.
    Export,
    /// `/version`: the versions of frper and frp.
    Version,
    /// Any other path: answered with code 404.
    NotFound,
}

/// The path that selects a route; `None` for `NotFound`, which no path names.
pub open spec fn route_path(route: Route) -> Option<Seq<char>> {
    match route {
        Route::Settings => Some("/settings"@),
        Route::SettingUpdate => Some("/setting/update"@),
        Route::Proxies => Some("/proxy"@),
        Route::ProxyAdd => Some("/proxy/add"@),
        Route::ProxyEdit => Some("/proxy/edit"@),
        Route::ProxyDelete => Some("/proxy/delete"@),
        Route::ProxyEnable => Some("/proxy/enable"@),
        Route::Export => Some("/export"@),
        Route::Version => Some("/version"@),
        Route::NotFound => None,
    }
}

/// The route of a path: the route whose path it is, or `NotFound`.
pub open spec fn route_of(path: Seq<char>) -> Route {
    if path == "/settings"@ {
        Route::Settings
    } else if path == "/setting/update"@ {
        Route::SettingUpdate
    } else if path == "/proxy"@ {
        Route::Proxies
    } else if path == "/proxy/add"@ {
        Route::ProxyAdd
    } else if path == "/proxy/edit"@ {
        Route::ProxyEdit
    } else if path == "/proxy/delete"@ {
        Route::ProxyDelete
    } else if path == "/proxy/enable"@ {
        Route::ProxyEnable
    } else if path == "/export"@ {
        Route::Export
    } else if path == "/version"@ {
        Route::Version
    } else {
        Route::NotFound
    }
}

impl Route {
    /// The route that a request for `path` takes.
    pub fn from_path(path: &str) -> (route: Route)
        ensures
            route == route_of(path@),
    {
        if same_text(path, "/settings") {
            Route::Settings
        } else if same_text(path, "/setting/update") {
            Route::SettingUpdate
        } else if same_text(path, "/proxy") {
            Route::Proxies
        } else if same_text(path, "/proxy/add") {
            Route::ProxyAdd
        } else if same_text(path, "/proxy/edit") {
            Route::ProxyEdit
        } else if same_text(path, "/proxy/delete") {
            Route::ProxyDelete
        } else if same_text(path, "/proxy/enable") {
            Route::ProxyEnable
        } else if same_text(path, "/export") {
            Route::Export
        } else if same_text(path, "/version") {
            Route::Version
        } else {
            Route::NotFound
        }
    }

    /// The message of the failure reply of a proxy write on this route, where
    /// it names one; the edit route and all others use the default message.
    pub fn failure_message(&self) -> (msg: Option<&'static str>)
        ensures
            *self == Route::ProxyAdd ==> (msg matches Some(m) && m@ == "新建失败"@),
            *self == Route::ProxyDelete || *self == Route::ProxyEnable
                ==> (msg matches Some(m) && m@ == "操作失败"@),
            *self != Route::ProxyAdd && *self != Route::ProxyDelete && *self != Route::ProxyEnable
                ==> msg is None,
    {
        match self {
            Route::ProxyAdd => Some("新建失败"),
            Route::ProxyDelete => Some("操作失败"),
            Route::ProxyEnable => Some("操作失败"),
            _ => None,
        }
    }
}

/// The reply to a request for a path that no route takes: code 404, no data.
pub fn not_found_reply() -> (r: Response<'static, Option<String>>)
    ensures
        r.code == 404,
        r.data is None,
        r.msg@ == "not found!"@,
{
    Response::new(404, None, "not found!")
}

/// The reply to a request whose handler failed with `msg`: code 500, no data.
pub fn error_reply<'a>(msg: &'a str) -> (r: Response<'a, Option<&'a str>>)
    ensures
        r.code == 500,
        r.data is None,
        r.msg == msg,
{
    Response::new(500, None, msg)
}

/// Every route but `NotFound` is reached by exactly its own path: a request
/// for the path of a route is dispatched to that route.
pub proof fn route_of_its_path(route: Route)
    ensures
        route_path(route) matches Some(p) ==> route_of(p) == route,
{
    reveal_strlit("/settings");
    assert("/settings"@.len() == 9);
    reveal_strlit("/setting/update");
    assert("/setting/update"@.len() == 15);
    reveal_strlit("/proxy");
    assert("/proxy"@.len() == 6);
    reveal_strlit("/proxy/add");
    assert("/proxy/add"@.len() == 10);
    reveal_strlit("/proxy/edit");
    assert("/proxy/edit"@.len() == 11);
    reveal_strlit("/proxy/delete");
    assert("/proxy/delete"@.len() == 13);
    reveal_strlit("/proxy/enable");
    assert("/proxy/enable"@.len() == 13);
    reveal_strlit("/export");
    assert("/export"@.len() == 7);
    reveal_strlit("/version");
    assert("/version"@.len() == 8);
    assert("/proxy/delete"@[7] != "/proxy/enable"@[7]);
}

/// A path that is no route's path is answered as not found, and a path that
/// is answered as not found is no route's path.
pub proof fn unknown_paths_not_found(path: Seq<char>)
    ensures
        route_of(path) == Route::NotFound <==> (forall|r: Route| route_path(r) != Some(path)),
{
    if route_of(path) != Route::NotFound {
        let r = route_of(path);
        assert(route_path(r) == Some(path));
    } else {
        assert forall|r: Route| route_path(r) != Some(path) by {
            route_of_its_path(r);
        }
    }
}

} // verus!
