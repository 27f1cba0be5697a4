//! The route table: which action answers a request, by method and path.
use vstd::prelude::*;
use vstd::string::StringExecFns;
use crate::text::{chars_of, contains_parent_segment, has_parent_segment, same_chars};

verus! {

/// An HTTP request method.
#[derive(Clone, Copy, Debug, PartialEq, Eq)]
pub enum Method {
    Get,
    Head,
    Post,
    Put,
    Delete,
    Patch,
    Options,
    Connect,
    Trace,
    /// Any method outside the standard ones.
    Other,
}

/// The method that a request line names: the standard names, in capitals,
/// give their method; every other name gives `Method::Other`.
pub open spec fn method_named(name: Seq<char>) -> Method {
    if name == "GET"@ {
        Method::Get
    } else if name == "HEAD"@ {
        Method::Head
    } else if name == "POST"@ {
        Method::Post
    } else if name == "PUT"@ {
        Method::Put
    } else if name == "DELETE"@ {
        Method::Delete
    } else if name == "PATCH"@ {
        Method::Patch
    } else if name == "OPTIONS"@ {
        Method::Options
    } else if name == "CONNECT"@ {
        Method::Connect
    } else if name == "TRACE"@ {
        Method::Trace
    } else {
        Method::Other
    }
}

impl Method {
    /// The method of the given name.
    pub fn parse(name: &str) -> (r: Method)
        ensures
            r == method_named(name@),
    {
        let n = chars_of(name);
        if same_chars(&n, &chars_of("GET")) {
            Method::Get
        } else if same_chars(&n, &chars_of("HEAD")) {
            Method::Head
        } else if same_chars(&n, &chars_of("POST")) {
            Method::Post
        } else if same_chars(&n, &chars_of("PUT")) {
            Method::Put
        } else if same_chars(&n, &chars_of("DELETE")) {
            Method::Delete
        } else if same_chars(&n, &chars_of("PATCH")) {
            Method::Patch
        } else if same_chars(&n, &chars_of("OPTIONS")) {
            Method::Options
        } else if same_chars(&n, &chars_of("CONNECT")) {
            Method::Connect
        } else if same_chars(&n, &chars_of("TRACE")) {
            Method::Trace
        } else {
            Method::Other
        }
    }

    /// Whether this is `GET`.
    pub fn is_get(&self) -> (r: bool)
        ensures
            r == (*self == Method::Get),
    {
        match self {
            Method::Get => true,
            _ => false,
        }
    }
}

/// A page that a named route serves from a fixed file.
#[derive(Clone, Copy, Debug, PartialEq, Eq)]
pub enum Page {
    Favicon,
    Blog,
    About,
    Experience,
    Projects,
    Interests,
}

/// The path of the named route of each page.
pub open spec fn page_path(p: Page) -> Seq<char> {
    match p {
        Page::Favicon => "/favicon"@,
        Page::Blog => "/blog"@,
        Page::About => "/about"@,
        Page::Experience => "/experience"@,
        Page::Projects => "/projects"@,
        Page::Interests => "/interests"@,
    }
}

/// The file that each page is served from.
pub open spec fn page_file(p: Page) -> Seq<char> {
    match p {
        Page::Favicon => "static/favicon.ico"@,
        Page::Blog => "static/blog.html"@,
        Page::About => "static/about.html"@,
        Page::Experience => "static/experience.html"@,
        Page::Projects => "static/projects.html"@,
        Page::Interests => "static/interests.html"@,
    }
}

/// The status of a page served from its file: every page is a success.
pub open spec fn page_status(p: Page) -> u16 {
    200
}

/// The root path, which serves the blog.
pub open spec fn root_path() -> Seq<char> {
    "/"@
}

/// The directory that holds every file the site serves.
pub open spec fn static_root() -> Seq<char> {
    "static"@
}

/// The page shown for a `GET` that nothing else answers.
pub open spec fn not_found_file() -> Seq<char> {
    "static/404.html"@
}

/// The page that a `GET` of `path` serves by name, if any.
pub open spec fn named_page(path: Seq<char>) -> Option<Page> {
    if path == page_path(Page::Favicon) {
        Some(Page::Favicon)
    } else if path == page_path(Page::Blog) || path == root_path() {
        Some(Page::Blog)
    } else if path == page_path(Page::About) {
        Some(Page::About)
    } else if path == page_path(Page::Experience) {
        Some(Page::Experience)
    } else if path == page_path(Page::Projects) {
        Some(Page::Projects)
    } else if path == page_path(Page::Interests) {
        Some(Page::Interests)
    } else {
        None
    }
}

/// Whether `path` may be looked up under the static directory: it is
/// absolute, names more than the root, and holds no `..` segment, so the
/// file it names lies inside the directory.
pub open spec fn static_servable(path: Seq<char>) -> bool {
    &&& path.len() > 1
    &&& path[0] == '/'
    &&& !has_parent_segment(path)
}

/// The file under the static directory that `path` names.
pub open spec fn static_file(path: Seq<char>) -> Seq<char> {
    static_root() + path
}

impl Page {
    /// The path of this page's named route.
    pub fn path(&self) -> (r: &'static str)
        ensures
            r@ == page_path(*self),
    {
        match self {
            Page::Favicon => "/favicon",
            Page::Blog => "/blog",
            Page::About => "/about",
            Page::Experience => "/experience",
            Page::Projects => "/projects",
            Page::Interests => "/interests",
        }
    }

    /// The file this page is served from.
    pub fn file(&self) -> (r: &'static str)
        ensures
            r@ == page_file(*self),
    {
        match self {
            Page::Favicon => "static/favicon.ico",
            Page::Blog => "static/blog.html",
            Page::About => "static/about.html",
            Page::Experience => "static/experience.html",
            Page::Projects => "static/projects.html",
            Page::Interests => "static/interests.html",
        }
    }

    /// The status this page is served with.
    pub fn status(&self) -> (r: u16)
        ensures
            r == page_status(*self),
    {
        200
    }
}

/// The page that a `GET` of `path` serves by name, if any.
pub fn lookup_page(path: &Vec<char>) -> (r: Option<Page>)
    ensures
        r == named_page(path@),
{
    if same_chars(path, &chars_of("/favicon")) {
        Some(Page::Favicon)
    } else if same_chars(path, &chars_of("/blog")) || same_chars(path, &chars_of("/")) {
        Some(Page::Blog)
    } else if same_chars(path, &chars_of("/about")) {
        Some(Page::About)
    } else if same_chars(path, &chars_of("/experience")) {
        Some(Page::Experience)
    } else if same_chars(path, &chars_of("/projects")) {
        Some(Page::Projects)
    } else if same_chars(path, &chars_of("/interests")) {
        Some(Page::Interests)
    } else {
        None
    }
}

/// What answers a request.
#[derive(Clone, Debug, PartialEq, Eq)]
pub enum Action {
    /// A named page, served from its fixed file.
    Page(Page),
    /// A file under the static directory, by its path.
    Static(String),
    /// The page shown for a `GET` that nothing else answers.
    NotFoundPage,
    /// A refusal of a method other than `GET`.
    MethodNotAllowed,
}

/// The mathematical value of an [`Action`].
pub enum ActionView {
    Page(Page),
    Static(Seq<char>),
    NotFoundPage,
    MethodNotAllowed,
}

impl View for Action {
    type V = ActionView;

    open spec fn view(&self) -> ActionView {
        match self {
            Action::Page(p) => ActionView::Page(*p),
            Action::Static(f) => ActionView::Static(f@),
            Action::NotFoundPage => ActionView::NotFoundPage,
            Action::MethodNotAllowed => ActionView::MethodNotAllowed,
        }
    }
}

/// The action that answers a request of `method` for `path`: only `GET`
/// is served; a named route first, then a file under the static
/// directory, then the not-found page.
pub open spec fn route_of(method: Method, path: Seq<char>) -> ActionView {
    if method != Method::Get {
        ActionView::MethodNotAllowed
    } else if named_page(path) is Some {
        ActionView::Page(named_page(path)->0)
    } else if static_servable(path) {
        ActionView::Static(static_file(path))
    } else {
        ActionView::NotFoundPage
    }
}

/// The file that an action reads, if it reads one.
pub open spec fn file_of(a: ActionView) -> Option<Seq<char>> {
    match a {
        ActionView::Page(p) => Some(page_file(p)),
        ActionView::Static(f) => Some(f),
        ActionView::NotFoundPage => Some(not_found_file()),
        ActionView::MethodNotAllowed => None,
    }
}

/// The action that answers a request of `method` for `path`.
pub fn route(method: Method, path: &str) -> (r: Action)
    ensures
        r@ == route_of(method, path@),
{
    if !method.is_get() {
        return Action::MethodNotAllowed;
    }
    let p = chars_of(path);
    match lookup_page(&p) {
        Some(page) => Action::Page(page),
        None => {
            if p.len() > 1 && p[0] == '/' && !contains_parent_segment(&p) {
                Action::Static(String::from_str("static").concat(path))
            } else {
                Action::NotFoundPage
            }
        },
    }
}

impl Action {
    /// The file this action reads, if it reads one.
    pub fn file(&self) -> (r: Option<String>)
        ensures
            r is Some == file_of(self@) is Some,
            r is Some ==> r->0@ == file_of(self@)->0,
    {
        match self {
            Action::Page(p) => Some(String::from_str(p.file())),
            Action::Static(f) => Some(f.clone()),
            Action::NotFoundPage => Some(String::from_str("static/404.html")),
            Action::MethodNotAllowed => None,
        }
    }
}

} // verus!
