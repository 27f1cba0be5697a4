use homepage::respond::{respond, FileOutcome, Response, Step};
use homepage::routes::{lookup_page, route, Action, Method, Page};
use homepage::text::{chars_of, contains_parent_segment, same_chars};

fn page_response(status: u16, body: &[u8], file: &str) -> Step {
    Step::Reply(Response { status, body: body.to_vec(), file: Some(file.to_string()) })
}

fn bare(status: u16) -> Step {
    Step::Reply(Response { status, body: Vec::new(), file: None })
}

#[test]
fn get_about_serves_its_bytes() {
    let action = route(Method::Get, "/about");
    assert_eq!(action, Action::Page(Page::About));
    assert_eq!(action.file(), Some("static/about.html".to_string()));
    let step = respond(action, FileOutcome::Found(b"ABOUT".to_vec()));
    assert_eq!(step, page_response(200, b"ABOUT", "static/about.html"));
}

#[test]
fn get_nonexistent_serves_not_found_page() {
    let action = route(Method::Get, "/nonexistent");
    assert_eq!(action, Action::Static("static/nonexistent".to_string()));
    let step = respond(action, FileOutcome::Missing);
    assert_eq!(step, Step::Next(Action::NotFoundPage));
    let fallback = Action::NotFoundPage;
    assert_eq!(fallback.file(), Some("static/404.html".to_string()));
    let step = respond(fallback, FileOutcome::Found(b"<h1>lost</h1>".to_vec()));
    assert_eq!(step, page_response(404, b"<h1>lost</h1>", "static/404.html"));
}

#[test]
fn delete_blog_is_refused() {
    let action = route(Method::Delete, "/blog");
    assert_eq!(action, Action::MethodNotAllowed);
    assert_eq!(action.file(), None);
    assert_eq!(respond(action, FileOutcome::Missing), bare(405));
}

#[test]
fn every_named_route_serves_its_file() {
    let cases = [
        ("/favicon", Page::Favicon, "static/favicon.ico"),
        ("/blog", Page::Blog, "static/blog.html"),
        ("/about", Page::About, "static/about.html"),
        ("/experience", Page::Experience, "static/experience.html"),
        ("/projects", Page::Projects, "static/projects.html"),
        ("/interests", Page::Interests, "static/interests.html"),
    ];
    for (path, page, file) in cases {
        assert_eq!(page.path(), path);
        assert_eq!(page.file(), file);
        assert_eq!(page.status(), 200);
        let action = route(Method::Get, path);
        assert_eq!(action, Action::Page(page));
        let body = format!("contents of {}", file).into_bytes();
        let step = respond(action, FileOutcome::Found(body.clone()));
        assert_eq!(step, page_response(200, &body, file));
    }
}

#[test]
fn root_answers_as_blog() {
    let root = route(Method::Get, "/");
    let blog = route(Method::Get, "/blog");
    assert_eq!(root, blog);
    let a = respond(root, FileOutcome::Found(b"BLOG".to_vec()));
    let b = respond(blog, FileOutcome::Found(b"BLOG".to_vec()));
    assert_eq!(a, b);
}

#[test]
fn existing_static_file_is_served() {
    let action = route(Method::Get, "/css/site.css");
    assert_eq!(action, Action::Static("static/css/site.css".to_string()));
    let step = respond(action, FileOutcome::Found(b"body{}".to_vec()));
    assert_eq!(step, page_response(200, b"body{}", "static/css/site.css"));
}

#[test]
fn near_misses_of_named_routes_go_to_static() {
    assert_eq!(route(Method::Get, "/blog/"), Action::Static("static/blog/".to_string()));
    assert_eq!(route(Method::Get, "/Blog"), Action::Static("static/Blog".to_string()));
    assert_eq!(route(Method::Get, "/favicon.ico"), Action::Static("static/favicon.ico".to_string()));
    assert_eq!(route(Method::Get, "/a..b"), Action::Static("static/a..b".to_string()));
    assert_eq!(route(Method::Get, "/.hidden"), Action::Static("static/.hidden".to_string()));
}

#[test]
fn traversal_goes_to_not_found_page() {
    for path in ["/../etc/passwd", "/a/../../secret", "/..", "/x/..", "/static/../../x"] {
        assert_eq!(route(Method::Get, path), Action::NotFoundPage, "{}", path);
    }
}

#[test]
fn paths_without_leading_slash_are_not_looked_up() {
    assert_eq!(route(Method::Get, ""), Action::NotFoundPage);
    assert_eq!(route(Method::Get, "blog"), Action::NotFoundPage);
}

#[test]
fn non_get_methods_are_refused_everywhere() {
    let methods = [
        Method::Head,
        Method::Post,
        Method::Put,
        Method::Delete,
        Method::Patch,
        Method::Options,
        Method::Connect,
        Method::Trace,
        Method::Other,
    ];
    for m in methods {
        for path in ["/", "/blog", "/nonexistent", "/../x"] {
            let action = route(m, path);
            assert_eq!(action, Action::MethodNotAllowed);
            assert_eq!(respond(action, FileOutcome::Found(b"x".to_vec())), bare(405));
        }
    }
}

#[test]
fn missing_page_file_answers_404_without_body() {
    assert_eq!(respond(Action::Page(Page::Projects), FileOutcome::Missing), bare(404));
    assert_eq!(respond(Action::NotFoundPage, FileOutcome::Missing), bare(404));
}

#[test]
fn unreadable_files_answer_500() {
    assert_eq!(respond(Action::Page(Page::Interests), FileOutcome::Unreadable), bare(500));
    assert_eq!(respond(Action::Static("static/x".to_string()), FileOutcome::Unreadable), bare(500));
    assert_eq!(respond(Action::NotFoundPage, FileOutcome::Unreadable), bare(500));
}

#[test]
fn two_requests_answer_independently() {
    let a = route(Method::Get, "/about");
    let b = route(Method::Get, "/projects");
    let rb = respond(b, FileOutcome::Found(b"PROJECTS".to_vec()));
    let ra = respond(a, FileOutcome::Found(b"ABOUT".to_vec()));
    assert_eq!(ra, page_response(200, b"ABOUT", "static/about.html"));
    assert_eq!(rb, page_response(200, b"PROJECTS", "static/projects.html"));
}

#[test]
fn method_names_parse() {
    assert_eq!(Method::parse("GET"), Method::Get);
    assert_eq!(Method::parse("HEAD"), Method::Head);
    assert_eq!(Method::parse("POST"), Method::Post);
    assert_eq!(Method::parse("PUT"), Method::Put);
    assert_eq!(Method::parse("DELETE"), Method::Delete);
    assert_eq!(Method::parse("PATCH"), Method::Patch);
    assert_eq!(Method::parse("OPTIONS"), Method::Options);
    assert_eq!(Method::parse("CONNECT"), Method::Connect);
    assert_eq!(Method::parse("TRACE"), Method::Trace);
    assert_eq!(Method::parse("get"), Method::Other);
    assert_eq!(Method::parse("PROPFIND"), Method::Other);
    assert!(Method::Get.is_get());
    assert!(!Method::Post.is_get());
}

#[test]
fn page_lookup_by_path() {
    assert_eq!(lookup_page(&chars_of("/")), Some(Page::Blog));
    assert_eq!(lookup_page(&chars_of("/interests")), Some(Page::Interests));
    assert_eq!(lookup_page(&chars_of("/interest")), None);
}

#[test]
fn text_helpers() {
    assert_eq!(chars_of("a/é"), vec!['a', '/', 'é']);
    assert!(same_chars(&chars_of("abc"), &chars_of("abc")));
    assert!(!same_chars(&chars_of("abc"), &chars_of("abd")));
    assert!(!same_chars(&chars_of("abc"), &chars_of("ab")));
    assert!(contains_parent_segment(&chars_of("..")));
    assert!(contains_parent_segment(&chars_of("/a/../b")));
    assert!(!contains_parent_segment(&chars_of("/a.../b")));
    assert!(!contains_parent_segment(&chars_of("/a/.b/")));
    assert!(!contains_parent_segment(&chars_of("")));
}
