//! Whole requests: an action, its file, and the fallback, taken together
//! over a model of the static directory.
use vstd::prelude::*;
use crate::respond::{
    bare, from_file, respond_of, FileOutcomeView, ResponseView, StepView, METHOD_NOT_ALLOWED,
    NOT_FOUND, OK,
};
use crate::routes::{
    file_of, named_page, not_found_file, page_file, page_path, page_status, root_path,
    route_of, static_file, static_servable, ActionView, Method, Page,
};
use crate::text::{has_parent_segment, is_parent_segment_at};

verus! {

/// What reading the file of `a` comes to, when `files` maps each file
/// path that exists to its bytes.
pub open spec fn outcome_in(files: Map<Seq<char>, Seq<u8>>, a: ActionView) -> FileOutcomeView {
    match file_of(a) {
        Some(f) => if files.contains_key(f) {
            FileOutcomeView::Found(files[f])
        } else {
            FileOutcomeView::Missing
        },
        None => FileOutcomeView::Missing,
    }
}

/// The response to a request of `method` for `path` when `files` holds
/// the files that exist: the routed action, then the fallback it leads to.
pub open spec fn serve_of(method: Method, path: Seq<char>, files: Map<Seq<char>, Seq<u8>>) -> ResponseView {
    let a = route_of(method, path);
    match respond_of(a, outcome_in(files, a)) {
        StepView::Reply(r) => r,
        StepView::Next(b) => match respond_of(b, outcome_in(files, b)) {
            StepView::Reply(r) => r,
            StepView::Next(_) => bare(NOT_FOUND),
        },
    }
}

/// Whether `f` is one of the files fixed in the route table: a page's
/// file or the not-found page.
pub open spec fn fixed_file(f: Seq<char>) -> bool {
    f == not_found_file() || exists|p: Page| f == #[trigger] page_file(p)
}

/// Whether `f` names a file inside the static directory: it starts with
/// `static/` and no `..` segment can lead it out.
pub open spec fn inside_static_root(f: Seq<char>) -> bool {
    &&& f.len() > 7
    &&& f.take(7) == "static/"@
    &&& !has_parent_segment(f)
}

/// Every file fixed in the route table lies inside the static directory.
proof fn lemma_fixed_files_inside_root(f: Seq<char>)
    requires
        fixed_file(f),
    ensures
        inside_static_root(f),
{
    reveal_strlit("static/");
    reveal_strlit("static/404.html");
    reveal_strlit("static/favicon.ico");
    reveal_strlit("static/blog.html");
    reveal_strlit("static/about.html");
    reveal_strlit("static/experience.html");
    reveal_strlit("static/projects.html");
    reveal_strlit("static/interests.html");
    assert(f.take(7) =~= "static/"@);
    if has_parent_segment(f) {
        let i = choose|i: int| #[trigger] is_parent_segment_at(f, i);
    }
}

/// A path that may be looked up names a file inside the static directory.
proof fn lemma_static_files_inside_root(path: Seq<char>)
    requires
        static_servable(path),
    ensures
        inside_static_root(static_file(path)),
{
    reveal_strlit("static");
    reveal_strlit("static/");
    let f = static_file(path);
    assert(f.take(7) =~= "static/"@);
    if has_parent_segment(f) {
        let i = choose|i: int| #[trigger] is_parent_segment_at(f, i);
        assert(i >= 7);
        assert(is_parent_segment_at(path, i - 6));
    }
}

/// A fallback leads only to the not-found page, and the not-found page
/// always gives a response: no request takes more than two steps.
pub proof fn lemma_fallback_is_final(a: ActionView, o: FileOutcomeView)
    ensures
        respond_of(a, o) is Next ==> respond_of(a, o)->Next_0 == ActionView::NotFoundPage,
        respond_of(ActionView::NotFoundPage, o) is Reply,
{
}

/// The paths of the route table differ from each other.
proof fn lemma_route_paths_distinct()
    ensures
        page_path(Page::Favicon).len() == 8,
        page_path(Page::Blog).len() == 5,
        page_path(Page::About).len() == 6,
        page_path(Page::Experience).len() == 11,
        page_path(Page::Projects).len() == 9,
        page_path(Page::Interests).len() == 10,
        root_path().len() == 1,
{
    reveal_strlit("/favicon");
    reveal_strlit("/blog");
    reveal_strlit("/about");
    reveal_strlit("/experience");
    reveal_strlit("/projects");
    reveal_strlit("/interests");
    reveal_strlit("/");
}

/// A `GET` of a named route serves that page's file, with status 200,
/// whenever the file exists.
pub proof fn lemma_named_routes_serve_their_files(p: Page, files: Map<Seq<char>, Seq<u8>>)
    requires
        files.contains_key(page_file(p)),
    ensures
        serve_of(Method::Get, page_path(p), files) == from_file(OK, files[page_file(p)], page_file(p)),
        page_status(p) == OK,
{
    lemma_route_paths_distinct();
    assert(named_page(page_path(p)) == Some(p));
}

/// A `GET` of the root answers exactly as a `GET` of the blog does.
pub proof fn lemma_root_serves_blog(files: Map<Seq<char>, Seq<u8>>)
    ensures
        serve_of(Method::Get, root_path(), files) == serve_of(Method::Get, page_path(Page::Blog), files),
{
    lemma_route_paths_distinct();
    assert(named_page(root_path()) == Some(Page::Blog));
    assert(named_page(page_path(Page::Blog)) == Some(Page::Blog));
}

/// A `GET` of a path that no route names and that names no existing file
/// under the static directory serves the not-found page with status 404.
pub proof fn lemma_unmatched_get_serves_not_found_page(path: Seq<char>, files: Map<Seq<char>, Seq<u8>>)
    requires
        named_page(path) is None,
        !files.contains_key(static_file(path)),
        files.contains_key(not_found_file()),
    ensures
        serve_of(Method::Get, path, files) == from_file(NOT_FOUND, files[not_found_file()], not_found_file()),
{
}

/// Every method other than `GET` is refused with 405 and no body, for
/// every path.
pub proof fn lemma_other_methods_refused(method: Method, path: Seq<char>, files: Map<Seq<char>, Seq<u8>>)
    requires
        method != Method::Get,
    ensures
        serve_of(method, path, files) == bare(METHOD_NOT_ALLOWED),
{
}

/// The only file a request's own path can select is the one it names
/// under the static directory, and only when it holds no `..` segment;
/// every other file served is fixed in the route table. So a path with a
/// `..` segment only ever gets a fixed file, and no file served lies
/// outside the static directory.
pub proof fn lemma_served_files_stay_in_root(method: Method, path: Seq<char>, files: Map<Seq<char>, Seq<u8>>)
    ensures
        serve_of(method, path, files).file is Some ==> {
            let f = serve_of(method, path, files).file->0;
            fixed_file(f) || (static_servable(path) && f == static_file(path))
        },
        has_parent_segment(path) && serve_of(method, path, files).file is Some ==> fixed_file(
            serve_of(method, path, files).file->0,
        ),
        serve_of(method, path, files).file is Some ==> inside_static_root(
            serve_of(method, path, files).file->0,
        ),
{
    if let ActionView::Page(p) = route_of(method, path) {
        assert(fixed_file(page_file(p)));
    }
    let r = serve_of(method, path, files);
    if r.file is Some {
        if fixed_file(r.file->0) {
            lemma_fixed_files_inside_root(r.file->0);
        } else {
            lemma_static_files_inside_root(path);
        }
    }
}

/// A path with a `..` segment names no route, so a `GET` of it is routed
/// to the not-found page.
pub proof fn lemma_parent_segment_routes_to_not_found(path: Seq<char>)
    requires
        has_parent_segment(path),
    ensures
        named_page(path) is None,
        route_of(Method::Get, path) == ActionView::NotFoundPage,
{
    let i = choose|i: int| #[trigger] is_parent_segment_at(path, i);
    reveal_strlit("/favicon");
    reveal_strlit("/blog");
    reveal_strlit("/about");
    reveal_strlit("/experience");
    reveal_strlit("/projects");
    reveal_strlit("/interests");
    reveal_strlit("/");
    assert(path != root_path());
    assert(path != page_path(Page::Blog));
}

} // verus!
