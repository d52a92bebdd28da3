//! The request descriptor: method, path, query, headers, body and the shape
//! of the expected response, free of any knowledge of the endpoint that
//! produced it.

use vstd::prelude::*;

use crate::routing::{
    params_view, route_method, route_path, route_query, route_shape, Method, QueryParam,
    ResponseShape, Route,
};

verus! {

/// One header, name and value.
#[derive(Debug)]
pub struct Header {
    pub name: String,
    pub value: String,
}

impl View for Header {
    type V = (Seq<char>, Seq<char>);

    open spec fn view(&self) -> (Seq<char>, Seq<char>) {
        (self.name@, self.value@)
    }
}

/// The view of each header of `hs`.
pub open spec fn headers_view(hs: Seq<Header>) -> Seq<(Seq<char>, Seq<char>)> {
    hs.map_values(|h: Header| h@)
}

/// `c` with an ASCII upper-case letter made lower-case.
pub open spec fn ascii_lower(c: char) -> char {
    if 'A' <= c && c <= 'Z' {
        ((c as u8) + 32) as u8 as char
    } else {
        c
    }
}

/// Whether `a` and `b` are equal but for the case of ASCII letters.
pub open spec fn eq_ignore_case(a: Seq<char>, b: Seq<char>) -> bool {
    a.len() == b.len() && forall|i: int| 0 <= i < a.len() ==> ascii_lower(#[trigger] a[i]) == ascii_lower(b[i])
}

/// Whether the header at `i` of `hs` is the first one named `name`, case
/// aside.
pub open spec fn is_first_named(hs: Seq<(Seq<char>, Seq<char>)>, i: int, name: Seq<char>) -> bool {
    &&& 0 <= i < hs.len()
    &&& eq_ignore_case(hs[i].0, name)
    &&& forall|j: int| 0 <= j < i ==> !eq_ignore_case(#[trigger] hs[j].0, name)
}

/// `hs` with the header `name: value` set: it takes the place of the first
/// header of that name, case aside, or else comes last.
pub open spec fn insert_header(
    hs: Seq<(Seq<char>, Seq<char>)>,
    name: Seq<char>,
    value: Seq<char>,
) -> Seq<(Seq<char>, Seq<char>)> {
    if exists|i: int| is_first_named(hs, i, name) {
        hs.update(choose|i: int| is_first_named(hs, i, name), (name, value))
    } else {
        hs.push((name, value))
    }
}

/// Whether no two headers of `hs` have the same name, case aside.
pub open spec fn names_distinct(hs: Seq<(Seq<char>, Seq<char>)>) -> bool {
    forall|i: int, j: int|
        0 <= i < j < hs.len() ==> !eq_ignore_case(#[trigger] hs[i].0, #[trigger] hs[j].0)
}

/// Where some header at or before `j` is named `name`, case aside, a first
/// such header exists.
pub proof fn lemma_first_named_exists(hs: Seq<(Seq<char>, Seq<char>)>, name: Seq<char>, j: int)
    requires
        0 <= j < hs.len(),
        eq_ignore_case(hs[j].0, name),
    ensures
        exists|i: int| is_first_named(hs, i, name),
    decreases j,
{
    if forall|l: int| 0 <= l < j ==> !eq_ignore_case(#[trigger] hs[l].0, name) {
        assert(is_first_named(hs, j, name));
    } else {
        let l = choose|l: int| 0 <= l < j && !!eq_ignore_case(#[trigger] hs[l].0, name);
        lemma_first_named_exists(hs, name, l);
    }
}

/// Setting a header keeps the names of the headers distinct, case aside.
pub proof fn lemma_insert_keeps_names_distinct(
    hs: Seq<(Seq<char>, Seq<char>)>,
    name: Seq<char>,
    value: Seq<char>,
)
    requires
        names_distinct(hs),
    ensures
        names_distinct(insert_header(hs, name, value)),
{
    let ins = insert_header(hs, name, value);
    if exists|k: int| is_first_named(hs, k, name) {
        let k = choose|k: int| is_first_named(hs, k, name);
        assert forall|i: int, j: int| 0 <= i < j < ins.len() implies !eq_ignore_case(
            #[trigger] ins[i].0,
            #[trigger] ins[j].0,
        ) by {
            if i == k && eq_ignore_case(ins[i].0, ins[j].0) {
                assert(eq_ignore_case(hs[k].0, hs[j].0));
            }
            if j == k && eq_ignore_case(ins[i].0, ins[j].0) {
                assert(eq_ignore_case(hs[i].0, hs[k].0));
            }
        }
    } else {
        assert forall|i: int, j: int| 0 <= i < j < ins.len() implies !eq_ignore_case(
            #[trigger] ins[i].0,
            #[trigger] ins[j].0,
        ) by {
            if j == hs.len() && eq_ignore_case(ins[i].0, ins[j].0) {
                lemma_first_named_exists(hs, name, i);
            }
        }
    }
}

/// The value of the header `name`, case aside, if one is set.
pub open spec fn header_value(hs: Seq<(Seq<char>, Seq<char>)>, name: Seq<char>) -> Option<
    Seq<char>,
> {
    if exists|i: int| is_first_named(hs, i, name) {
        Some(hs[choose|i: int| is_first_named(hs, i, name)].1)
    } else {
        None
    }
}

/// Whether `a` and `b` are equal but for the case of ASCII letters.
pub fn eq_ignore_ascii_case(a: &str, b: &str) -> (r: bool)
    ensures
        r == eq_ignore_case(a@, b@),
{
    let n = a.unicode_len();
    if n != b.unicode_len() {
        return false;
    }
    let mut i: usize = 0;
    while i < n
        invariant
            n == a@.len() == b@.len(),
            i <= n,
            forall|j: int| 0 <= j < i ==> ascii_lower(#[trigger] a@[j]) == ascii_lower(b@[j]),
        decreases n - i,
    {
        let x = a.get_char(i);
        let y = b.get_char(i);
        let lx = if 'A' <= x && x <= 'Z' { ((x as u8) + 32) as char } else { x };
        let ly = if 'A' <= y && y <= 'Z' { ((y as u8) + 32) as char } else { y };
        if lx != ly {
            return false;
        }
        i = i + 1;
    }
    true
}

/// The request descriptor as plain values.
pub ghost struct RequestView {
    pub method: Method,
    pub path: Seq<char>,
    pub query: Seq<(Seq<char>, Seq<char>)>,
    pub headers: Seq<(Seq<char>, Seq<char>)>,
    pub body: Option<Seq<u8>>,
    pub shape: ResponseShape,
}

/// A complete HTTP request, ready for a transport.
#[derive(Debug)]
pub struct Request {
    pub method: Method,
    pub path: String,
    pub query: Vec<QueryParam>,
    pub headers: Vec<Header>,
    pub body: Option<Vec<u8>>,
    pub shape: ResponseShape,
}

impl View for Request {
    type V = RequestView;

    open spec fn view(&self) -> RequestView {
        RequestView {
            method: self.method,
            path: self.path@,
            query: params_view(self.query@),
            headers: headers_view(self.headers@),
            body: match self.body {
                Some(b) => Some(b@),
                None => None,
            },
            shape: self.shape,
        }
    }
}

/// The request that `r` describes, with no header and no body.
pub open spec fn route_request(r: Route) -> RequestView {
    RequestView {
        method: route_method(r),
        path: route_path(r),
        query: route_query(r),
        headers: Seq::empty(),
        body: None,
        shape: route_shape(r),
    }
}

/// `rq` with the header `name: value` set, replacing one of that name.
pub open spec fn with_header(rq: RequestView, name: Seq<char>, value: Seq<char>) -> RequestView {
    RequestView { headers: insert_header(rq.headers, name, value), ..rq }
}

/// The query parameter `p` as `name=value`.
pub open spec fn render_param(p: (Seq<char>, Seq<char>)) -> Seq<char> {
    p.0 + "="@ + p.1
}

/// The query string of `ps`: each parameter as `name=value`, joined by `&`.
pub open spec fn render_query(ps: Seq<(Seq<char>, Seq<char>)>) -> Seq<char>
    decreases ps.len(),
{
    if ps.len() == 0 {
        Seq::empty()
    } else if ps.len() == 1 {
        render_param(ps[0])
    } else {
        render_query(ps.drop_last()) + "&"@ + render_param(ps.last())
    }
}

impl Request {
    /// A builder that starts from the request that `route` describes.
    pub fn builder(route: &Route) -> (r: RequestBuilder)
        ensures
            r@ == route_request(*route),
            names_distinct(r@.headers),
    {
        let headers: Vec<Header> = Vec::new();
        let r = RequestBuilder {
            request: Request {
                method: route.method(),
                path: route.path(),
                query: route.query(),
                headers,
                body: None,
                shape: route.shape(),
            },
        };
        assert(r@.headers =~= Seq::empty());
        r
    }

    /// The request that `route` describes, with no header and no body.
    pub fn from_route(route: &Route) -> (r: Request)
        ensures
            r@ == route_request(*route),
    {
        Request::builder(route).build()
    }

    /// The query string: each parameter as `name=value`, joined by `&`;
    /// empty where there is none.
    pub fn query_string(&self) -> (r: String)
        ensures
            r@ == render_query(self@.query),
    {
        let mut s = String::new();
        let mut i: usize = 0;
        while i < self.query.len()
            invariant
                i <= self.query@.len(),
                s@ == render_query(params_view(self.query@).take(i as int)),
            decreases self.query@.len() - i,
        {
            let ghost ps = params_view(self.query@);
            if i > 0 {
                s.append("&");
            }
            s.append(self.query[i].name.as_str());
            s.append("=");
            s.append(self.query[i].value.as_str());
            proof {
                let t = ps.take(i + 1);
                assert(t.drop_last() =~= ps.take(i as int));
                assert(i == 0 ==> t.drop_last() =~= Seq::<(Seq<char>, Seq<char>)>::empty());
                assert(t.last() == ps[i as int]);
                if i == 0 {
                    assert(s@ =~= render_query(t));
                } else {
                    assert(s@ =~= render_query(t));
                }
            }
            i = i + 1;
        }
        assert(params_view(self.query@).take(self.query@.len() as int) =~= params_view(self.query@));
        s
    }

    /// The value of the header `name`, case aside.
    pub fn header(&self, name: &str) -> (r: Option<&String>)
        ensures
            r matches Some(v) ==> header_value(self@.headers, name@) == Some(v@),
            r is None ==> header_value(self@.headers, name@) is None,
    {
        let ghost hs = self@.headers;
        let mut i: usize = 0;
        while i < self.headers.len()
            invariant
                hs == headers_view(self.headers@),
                i <= self.headers@.len(),
                forall|j: int| 0 <= j < i ==> !eq_ignore_case(#[trigger] hs[j].0, name@),
            decreases self.headers@.len() - i,
        {
            if eq_ignore_ascii_case(self.headers[i].name.as_str(), name) {
                proof {
                    assert(is_first_named(hs, i as int, name@));
                    let k = choose|k: int| is_first_named(hs, k, name@);
                    assert(k == i);
                }
                return Some(&self.headers[i].value);
            }
            i = i + 1;
        }
        None
    }
}

/// A request under construction.
pub struct RequestBuilder {
    request: Request,
}

impl View for RequestBuilder {
    type V = RequestView;

    closed spec fn view(&self) -> RequestView {
        self.request@
    }
}

impl RequestBuilder {
    /// Sets the header `h`; one of the same name, case aside, is replaced.
    pub fn header(self, h: Header) -> (r: RequestBuilder)
        ensures
            r@ == with_header(self@, h.name@, h.value@),
            names_distinct(self@.headers) ==> names_distinct(r@.headers),
    {
        proof {
            if names_distinct(self@.headers) {
                lemma_insert_keeps_names_distinct(self@.headers, h.name@, h.value@);
            }
        }
        let mut request = self.request;
        let ghost hs = headers_view(request.headers@);
        let ghost hv = h@;
        let ghost start = self@;
        let mut i: usize = 0;
        while i < request.headers.len()
            invariant
                hv == h@,
                start == self@,
                request@ == start,
                hs == headers_view(request.headers@),
                i <= request.headers@.len(),
                forall|j: int| 0 <= j < i ==> !eq_ignore_case(#[trigger] hs[j].0, hv.0),
            decreases request.headers@.len() - i,
        {
            let same = eq_ignore_ascii_case(request.headers[i].name.as_str(), h.name.as_str());
            assert(hs[i as int] == request.headers@[i as int]@);
            if same {
                proof {
                    assert(is_first_named(hs, i as int, hv.0));
                    let k = choose|k: int| is_first_named(hs, k, hv.0);
                    assert(k == i);
                }
                request.headers.set(i, h);
                assert(headers_view(request.headers@) =~= insert_header(hs, hv.0, hv.1));
                let r = RequestBuilder { request };
                assert(r@ =~= with_header(self@, hv.0, hv.1));
                return r;
            }
            i = i + 1;
        }
        request.headers.push(h);
        assert(headers_view(request.headers@) =~= insert_header(hs, hv.0, hv.1));
        let r = RequestBuilder { request };
        assert(r@ =~= with_header(self@, hv.0, hv.1));
        r
    }

    /// The finished request.
    pub fn build(self) -> (r: Request)
        ensures
            r@ == self@,
    {
        self.request
    }
}

} // verus!

verus! {

/// An endpoint that converts into a request descriptor, consuming itself.
pub trait TryIntoRequest: Sized {
    /// Whether the conversion succeeds.
    spec fn converts(&self) -> bool;

    /// The request that the conversion produces where it succeeds.
    spec fn request_view(&self) -> RequestView;

    /// Converts the endpoint into a request, or into the error that keeps it
    /// from being sent.
    fn try_into_request(self) -> (r: Result<Request, crate::error::Error>)
        ensures
            r is Ok <==> self.converts(),
            r matches Ok(q) ==> q@ == self.request_view(),
            r matches Err(e) ==> e.spec_is_conversion(),
    ;
}

} // verus!
