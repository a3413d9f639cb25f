//! HTTP methods and the per-path table from method to handler name.

use vstd::prelude::*;
use crate::text::same_text;

verus! {

/// An HTTP method: one of the nine that a route can declare, or any other
/// token that a request may carry.
#[derive(Debug)]
pub enum Method {
    Get,
    Head,
    Delete,
    Options,
    Patch,
    Post,
    Put,
    Trace,
    Connect,
    Other(String),
}

/// A method as a mathematical value.
pub enum MethodView {
    Get,
    Head,
    Delete,
    Options,
    Patch,
    Post,
    Put,
    Trace,
    Connect,
    Other(Seq<char>),
}

impl View for Method {
    type V = MethodView;

    open spec fn view(&self) -> MethodView {
        match *self {
            Method::Get => MethodView::Get,
            Method::Head => MethodView::Head,
            Method::Delete => MethodView::Delete,
            Method::Options => MethodView::Options,
            Method::Patch => MethodView::Patch,
            Method::Post => MethodView::Post,
            Method::Put => MethodView::Put,
            Method::Trace => MethodView::Trace,
            Method::Connect => MethodView::Connect,
            Method::Other(name) => MethodView::Other(name@),
        }
    }
}

impl MethodView {
    /// Whether a route can declare this method.
    pub open spec fn supported(self) -> bool {
        !(self is Other)
    }

    /// The token that stands for this method in a request line.
    pub open spec fn name(self) -> Seq<char> {
        match self {
            MethodView::Get => "GET"@,
            MethodView::Head => "HEAD"@,
            MethodView::Delete => "DELETE"@,
            MethodView::Options => "OPTIONS"@,
            MethodView::Patch => "PATCH"@,
            MethodView::Post => "POST"@,
            MethodView::Put => "PUT"@,
            MethodView::Trace => "TRACE"@,
            MethodView::Connect => "CONNECT"@,
            MethodView::Other(name) => name,
        }
    }
}

/// The supported method that `name` spells, letter for letter.
pub open spec fn standard_method(name: Seq<char>) -> Option<MethodView> {
    if name == "GET"@ {
        Some(MethodView::Get)
    } else if name == "POST"@ {
        Some(MethodView::Post)
    } else if name == "PUT"@ {
        Some(MethodView::Put)
    } else if name == "DELETE"@ {
        Some(MethodView::Delete)
    } else if name == "PATCH"@ {
        Some(MethodView::Patch)
    } else if name == "OPTIONS"@ {
        Some(MethodView::Options)
    } else if name == "HEAD"@ {
        Some(MethodView::Head)
    } else if name == "CONNECT"@ {
        Some(MethodView::Connect)
    } else if name == "TRACE"@ {
        Some(MethodView::Trace)
    } else {
        None
    }
}

/// The method that a request token stands for: a supported method where the
/// token spells one, any other token as it is.
pub open spec fn method_of_token(token: Seq<char>) -> MethodView {
    match standard_method(token) {
        Some(m) => m,
        None => MethodView::Other(token),
    }
}

impl Clone for Method {
    fn clone(&self) -> (copy: Self)
        ensures
            copy@ == self@,
    {
        match self {
            Method::Get => Method::Get,
            Method::Head => Method::Head,
            Method::Delete => Method::Delete,
            Method::Options => Method::Options,
            Method::Patch => Method::Patch,
            Method::Post => Method::Post,
            Method::Put => Method::Put,
            Method::Trace => Method::Trace,
            Method::Connect => Method::Connect,
            Method::Other(name) => Method::Other(name.clone()),
        }
    }
}

impl Method {
    /// The supported method that `name` spells, letter for letter; `None`
    /// for every other text.
    pub fn standard(name: &str) -> (found: Option<Method>)
        ensures
            found is Some == standard_method(name@) is Some,
            found is Some ==> found.unwrap()@ == standard_method(name@).unwrap(),
    {
        if same_text(name, "GET") {
            Some(Method::Get)
        } else if same_text(name, "POST") {
            Some(Method::Post)
        } else if same_text(name, "PUT") {
            Some(Method::Put)
        } else if same_text(name, "DELETE") {
            Some(Method::Delete)
        } else if same_text(name, "PATCH") {
            Some(Method::Patch)
        } else if same_text(name, "OPTIONS") {
            Some(Method::Options)
        } else if same_text(name, "HEAD") {
            Some(Method::Head)
        } else if same_text(name, "CONNECT") {
            Some(Method::Connect)
        } else if same_text(name, "TRACE") {
            Some(Method::Trace)
        } else {
            None
        }
    }

    /// The method that the token of a request line stands for.
    pub fn from_token(token: &str) -> (method: Method)
        ensures
            method@ == method_of_token(token@),
    {
        match Method::standard(token) {
            Some(m) => m,
            None => Method::Other(token.to_owned()),
        }
    }

    /// The token that stands for this method in a request line.
    pub fn name(&self) -> (text: String)
        ensures
            text@ == self@.name(),
    {
        match self {
            Method::Get => "GET".to_owned(),
            Method::Head => "HEAD".to_owned(),
            Method::Delete => "DELETE".to_owned(),
            Method::Options => "OPTIONS".to_owned(),
            Method::Patch => "PATCH".to_owned(),
            Method::Post => "POST".to_owned(),
            Method::Put => "PUT".to_owned(),
            Method::Trace => "TRACE".to_owned(),
            Method::Connect => "CONNECT".to_owned(),
            Method::Other(name) => name.clone(),
        }
    }
}

/// What `str::to_uppercase` makes of a text.
pub uninterp spec fn uppercase_of(text: Seq<char>) -> Seq<char>;

/// `str::to_uppercase`: the text with each character replaced by its
/// upper-case form, as the Unicode tables of the standard library give it.
#[verifier::external_body]
pub(crate) fn to_uppercase(text: &str) -> (upper: String)
    ensures
        upper@ == uppercase_of(text@),
{
    text.to_uppercase()
}

/// A method name of a route configuration that names no supported method.
#[derive(Debug)]
pub struct InvalidMethod {
    pub name: String,
}

impl InvalidMethod {
    /// What to tell the author of the configuration.
    pub fn message(&self) -> (text: String)
        ensures
            text@ == "Invalid method"@,
    {
        "Invalid method".to_owned()
    }
}

/// The method that a route configuration declares with `name`, where
/// `upper` is the name in upper case.
pub fn method_from_upper(name: &str, upper: &str) -> (parsed: Result<Method, InvalidMethod>)
    ensures
        match standard_method(upper@) {
            Some(m) => parsed is Ok && parsed.unwrap()@ == m,
            None => parsed is Err && parsed.unwrap_err().name@ == name@,
        },
{
    match Method::standard(upper) {
        Some(m) => Ok(m),
        None => Err(InvalidMethod { name: name.to_owned() }),
    }
}

/// The method that a route configuration declares with `name`: its case
/// does not count, and a name that spells no supported method is refused.
pub fn deserialize_method(name: &str) -> (parsed: Result<Method, InvalidMethod>)
    ensures
        match standard_method(uppercase_of(name@)) {
            Some(m) => parsed is Ok && parsed.unwrap()@ == m,
            None => parsed is Err && parsed.unwrap_err().name@ == name@,
        },
{
    let upper = to_uppercase(name);
    method_from_upper(name, upper.as_str())
}

/// For one path, the handler that each declared method is bound to.
#[derive(Debug)]
pub struct MethodRoute {
    get: Option<String>,
    head: Option<String>,
    delete: Option<String>,
    options: Option<String>,
    patch: Option<String>,
    post: Option<String>,
    put: Option<String>,
    trace: Option<String>,
    connect: Option<String>,
}

/// The text of an optional handler name.
pub open spec fn name_view(name: Option<String>) -> Option<Seq<char>> {
    match name {
        Some(text) => Some(text@),
        None => None,
    }
}

impl MethodRoute {
    /// The handler bound to `method`, if the path declares that method.
    pub closed spec fn slot(&self, method: MethodView) -> Option<Seq<char>> {
        match method {
            MethodView::Get => name_view(self.get),
            MethodView::Head => name_view(self.head),
            MethodView::Delete => name_view(self.delete),
            MethodView::Options => name_view(self.options),
            MethodView::Patch => name_view(self.patch),
            MethodView::Post => name_view(self.post),
            MethodView::Put => name_view(self.put),
            MethodView::Trace => name_view(self.trace),
            MethodView::Connect => name_view(self.connect),
            MethodView::Other(_) => None,
        }
    }

    /// A table that binds no method.
    pub fn new() -> (table: MethodRoute)
        ensures
            table@ == Map::<MethodView, Seq<char>>::empty(),
    {
        let table = MethodRoute {
            get: None,
            head: None,
            delete: None,
            options: None,
            patch: None,
            post: None,
            put: None,
            trace: None,
            connect: None,
        };
        assert(table@ =~= Map::<MethodView, Seq<char>>::empty());
        table
    }

    /// The handler bound to `method`; `None` where the path does not declare
    /// it, and for every method that no route can declare.
    pub fn handler(&self, method: &Method) -> (name: Option<&String>)
        ensures
            name is Some == self@.dom().contains(method@),
            name is Some ==> name.unwrap()@ == self@[method@],
    {
        match method {
            Method::Get => self.get.as_ref(),
            Method::Head => self.head.as_ref(),
            Method::Delete => self.delete.as_ref(),
            Method::Options => self.options.as_ref(),
            Method::Patch => self.patch.as_ref(),
            Method::Post => self.post.as_ref(),
            Method::Put => self.put.as_ref(),
            Method::Trace => self.trace.as_ref(),
            Method::Connect => self.connect.as_ref(),
            Method::Other(_) => None,
        }
    }

    /// Binds `method` to `handler`, in place of what it was bound to before.
    /// Returns whether the method is one that a route can declare; the table
    /// is unchanged where it is not.
    pub fn bind(&mut self, method: &Method, handler: String) -> (bound: bool)
        ensures
            bound == method@.supported(),
            bound ==> final(self)@ == old(self)@.insert(method@, handler@),
            !bound ==> final(self)@ == old(self)@,
    {
        let bound = match method {
            Method::Get => {
                self.get = Some(handler);
                true
            },
            Method::Head => {
                self.head = Some(handler);
                true
            },
            Method::Delete => {
                self.delete = Some(handler);
                true
            },
            Method::Options => {
                self.options = Some(handler);
                true
            },
            Method::Patch => {
                self.patch = Some(handler);
                true
            },
            Method::Post => {
                self.post = Some(handler);
                true
            },
            Method::Put => {
                self.put = Some(handler);
                true
            },
            Method::Trace => {
                self.trace = Some(handler);
                true
            },
            Method::Connect => {
                self.connect = Some(handler);
                true
            },
            Method::Other(_) => false,
        };
        proof {
            if bound {
                assert(self@ =~= old(self)@.insert(method@, handler@));
            } else {
                assert(self@ =~= old(self)@);
            }
        }
        bound
    }
}

impl View for MethodRoute {
    type V = Map<MethodView, Seq<char>>;

    /// The table as a map from each declared method to its handler.
    closed spec fn view(&self) -> Map<MethodView, Seq<char>> {
        Map::new(|m: MethodView| self.slot(m) is Some, |m: MethodView| self.slot(m).unwrap())
    }
}

impl Default for MethodRoute {
    fn default() -> (table: MethodRoute)
        ensures
            table@ == Map::<MethodView, Seq<char>>::empty(),
    {
        MethodRoute::new()
    }
}

impl Clone for MethodRoute {
    fn clone(&self) -> (copy: MethodRoute)
        ensures
            copy@ == self@,
    {
        let copy = MethodRoute {
            get: self.get.clone(),
            head: self.head.clone(),
            delete: self.delete.clone(),
            options: self.options.clone(),
            patch: self.patch.clone(),
            post: self.post.clone(),
            put: self.put.clone(),
            trace: self.trace.clone(),
            connect: self.connect.clone(),
        };
        assert(copy@ =~= self@);
        copy
    }
}

/// Every method of a table is one that a route can declare.
pub proof fn law_table_methods_supported(table: MethodRoute, method: MethodView)
    ensures
        table@.dom().contains(method) ==> method.supported(),
{
}

} // verus!
