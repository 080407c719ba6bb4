use blog_api::server::routes::{hello, setup_routes, Endpoint, Handler, Method, Route};

#[test]
fn the_table_offers_the_seven_operations() {
    assert_eq!(
        setup_routes(),
        vec![
            Route { method: Method::Get, endpoint: Endpoint::Root, handler: Handler::Hello },
            Route { method: Method::Post, endpoint: Endpoint::Posts, handler: Handler::CreatePost },
            Route { method: Method::Get, endpoint: Endpoint::Posts, handler: Handler::FindAll },
            Route { method: Method::Get, endpoint: Endpoint::Search, handler: Handler::SearchPosts },
            Route { method: Method::Get, endpoint: Endpoint::Post, handler: Handler::FindById },
            Route { method: Method::Put, endpoint: Endpoint::Post, handler: Handler::UpdateById },
            Route { method: Method::Delete, endpoint: Endpoint::Post, handler: Handler::DeleteById },
        ]
    );
}

#[test]
fn no_two_routes_overlap() {
    let routes = setup_routes();
    for (at, first) in routes.iter().enumerate() {
        for second in routes.iter().skip(at + 1) {
            assert!(first.method != second.method || first.endpoint != second.endpoint);
            assert_ne!(first.handler, second.handler);
        }
    }
}

#[test]
fn each_endpoint_has_its_path() {
    assert_eq!(Endpoint::Root.path(), "/");
    assert_eq!(Endpoint::Posts.path(), "/posts");
    assert_eq!(Endpoint::Search.path(), "/posts/search");
    assert_eq!(Endpoint::Post.path(), "/posts/{id}");
}

#[test]
fn the_root_greets_with_200() {
    assert_eq!(hello(), (200, "Hello, World!"));
}
