//! The generic request description: method, URI, headers (keys
//! case-insensitive, values opaque byte strings, duplicates preserved in
//! order), an extension bag, and a body variant. Malformed parts are
//! rejected when the request is built, never later.

use vstd::prelude::*;

use crate::engine;
use crate::error::BuildError;
use crate::headers;
use crate::extensions::ExtensionBag;
use crate::source::ByteSource;
use crate::validate;

verus! {

/// A request body: absent, already in memory, or streamed from a source.
pub enum Body {
    /// No body at all.
    Empty,
    /// A body already held in memory, sent as one run of bytes.
    InMemory(Vec<u8>),
    /// A body produced on demand by a byte source, sent chunk by chunk.
    Streaming(Box<dyn ByteSource>),
}

/// A request description: built once, immutable after dispatch begins.
pub struct Request {
    pub(crate) method: Vec<u8>,
    pub(crate) uri: Vec<u8>,
    pub(crate) headers: Vec<(Vec<u8>, Vec<u8>)>,
    pub(crate) extensions: ExtensionBag,
    pub(crate) body: Body,
}

impl Request {
    /// The request method, an HTTP token.
    pub closed spec fn spec_method(self) -> Seq<u8> {
        self.method@
    }

    /// The request URI.
    pub closed spec fn spec_uri(self) -> Seq<u8> {
        self.uri@
    }

    /// The headers, in insertion order, duplicates preserved.
    pub closed spec fn spec_headers(self) -> Seq<(Seq<u8>, Seq<u8>)> {
        headers::headers_view(self.headers@)
    }

    /// The extension bag attached to the request.
    pub closed spec fn spec_extensions(self) -> ExtensionBag {
        self.extensions
    }

    /// Whether the body is absent.
    pub closed spec fn body_is_empty(self) -> bool {
        self.body is Empty
    }

    /// Whether the body streams from a byte source.
    pub closed spec fn body_is_streaming(self) -> bool {
        self.body is Streaming
    }

    /// The bytes of an in-memory body, if the body is one.
    pub closed spec fn body_bytes(self) -> Option<Seq<u8>> {
        match self.body {
            Body::InMemory(v) => Some(v@),
            _ => None,
        }
    }

    /// A well-formed request: the method is a token, every header is valid,
    /// and the extension bag is well formed. Constructors establish this and
    /// every method preserves it.
    pub closed spec fn wf(self) -> bool {
        &&& validate::is_valid_token(self.method@)
        &&& forall|i: int|
            0 <= i < self.headers@.len() ==> validate::is_valid_token(#[trigger] self.headers@[i].0@)
                && validate::is_valid_value(self.headers@[i].1@)
        &&& self.extensions.wf()
    }

    /// Builds a request with an empty body, no headers and an empty
    /// extension bag. The method must be an HTTP token and the URI must
    /// parse as a URL; a malformed part is rejected here, immediately.
    pub fn new(method: Vec<u8>, uri: Vec<u8>) -> (r: Result<Request, BuildError>)
        ensures
            !validate::is_valid_token(method@) ==> r matches Err(BuildError::InvalidMethod),
            validate::is_valid_token(method@) && !engine::url_ok(uri@) ==> r matches Err(
                BuildError::InvalidUri,
            ),
            validate::is_valid_token(method@) && engine::url_ok(uri@) ==> (r matches Ok(q) && {
                &&& q.wf()
                &&& q.spec_method() == method@
                &&& q.spec_uri() == uri@
                &&& engine::url_ok(q.spec_uri())
                &&& q.spec_headers() == Seq::<(Seq<u8>, Seq<u8>)>::empty()
                &&& q.body_is_empty()
                &&& q.spec_extensions().spec_redirect_policy() is None
                &&& q.spec_extensions().spec_read_timeout() is None
                &&& q.spec_extensions().spec_opaque() == Map::<u64, Seq<u8>>::empty()
            }),
    {
        if !validate::check_token(method.as_slice()) {
            return Err(BuildError::InvalidMethod);
        }
        if engine::parse_url(uri.as_slice()).is_err() {
            return Err(BuildError::InvalidUri);
        }
        let q = Request {
            method,
            uri,
            headers: Vec::new(),
            extensions: ExtensionBag::new(),
            body: Body::Empty,
        };
        proof {
            assert(q.spec_headers() =~= Seq::<(Seq<u8>, Seq<u8>)>::empty());
        }
        Ok(q)
    }

    /// Appends a header, preserving the order and any duplicates. The name
    /// must be an HTTP token and the value must hold only header-value
    /// bytes; a malformed part is rejected here, immediately, and the
    /// request is left unchanged.
    pub fn add_header(&mut self, name: Vec<u8>, value: Vec<u8>) -> (r: Result<(), BuildError>)
        requires
            old(self).wf(),
        ensures
            final(self).wf(),
            final(self).spec_method() == old(self).spec_method(),
            final(self).spec_uri() == old(self).spec_uri(),
            final(self).spec_extensions() == old(self).spec_extensions(),
            final(self).body_is_empty() == old(self).body_is_empty(),
            final(self).body_is_streaming() == old(self).body_is_streaming(),
            final(self).body_bytes() == old(self).body_bytes(),
            !validate::is_valid_token(name@) ==> (r matches Err(BuildError::InvalidHeaderName)
                && final(self).spec_headers() == old(self).spec_headers()),
            validate::is_valid_token(name@) && !validate::is_valid_value(value@) ==> (r matches
                Err(BuildError::InvalidHeaderValue) && final(self).spec_headers() == old(
                self,
            ).spec_headers()),
            validate::is_valid_token(name@) && validate::is_valid_value(value@) ==> (r matches
                Ok(_) && final(self).spec_headers() == old(self).spec_headers().push(
                (name@, value@),
            )),
    {
        if !validate::check_token(name.as_slice()) {
            return Err(BuildError::InvalidHeaderName);
        }
        if !validate::check_value(value.as_slice()) {
            return Err(BuildError::InvalidHeaderValue);
        }
        self.headers.push((name, value));
        proof {
            assert(self.spec_headers() =~= old(self).spec_headers().push(
                (self.headers@.last().0@, self.headers@.last().1@),
            ));
        }
        Ok(())
    }

    /// Replaces the body. The body does not affect well-formedness: any
    /// variant may stand here.
    pub fn set_body(&mut self, body: Body)
        requires
            old(self).wf(),
        ensures
            final(self).wf(),
            final(self).spec_method() == old(self).spec_method(),
            final(self).spec_uri() == old(self).spec_uri(),
            final(self).spec_headers() == old(self).spec_headers(),
            final(self).spec_extensions() == old(self).spec_extensions(),
            body is Empty ==> final(self).body_is_empty(),
            body is Streaming ==> final(self).body_is_streaming(),
            forall|v: Vec<u8>| body == Body::InMemory(v) ==> final(self).body_bytes() == Some(v@),
    {
        self.body = body;
    }

    /// The extension bag, to read policies from.
    pub fn extensions(&self) -> (r: &ExtensionBag)
        ensures
            *r == self.spec_extensions(),
    {
        &self.extensions
    }

    /// The extension bag, to attach policies to.
    pub fn extensions_mut(&mut self) -> (r: &mut ExtensionBag)
        ensures
            *r == old(self).spec_extensions(),
            final(self).spec_extensions() == *final(r),
            final(self).spec_method() == old(self).spec_method(),
            final(self).spec_uri() == old(self).spec_uri(),
            final(self).spec_headers() == old(self).spec_headers(),
            final(self).body_is_empty() == old(self).body_is_empty(),
            final(self).body_is_streaming() == old(self).body_is_streaming(),
            final(self).body_bytes() == old(self).body_bytes(),
            old(self).wf() && final(r).wf() ==> final(self).wf(),
    {
        &mut self.extensions
    }

    /// The first header value stored under `name`, compared without regard
    /// to ASCII case.
    pub fn get_header(&self, name: &[u8]) -> (r: Option<&Vec<u8>>)
        ensures
            match r {
                Some(v) => headers::header_lookup(self.spec_headers(), name@) == Some(v@),
                None => headers::header_lookup(self.spec_headers(), name@) is None,
            },
    {
        headers::find_header(&self.headers, name)
    }

    /// Takes the request apart for dispatch: its method, URI, headers,
    /// extension bag and body, with the well-formedness of the parts.
    pub(crate) fn into_parts(self) -> (r: (
        Vec<u8>,
        Vec<u8>,
        Vec<(Vec<u8>, Vec<u8>)>,
        ExtensionBag,
        Body,
    ))
        ensures
            r.0@ == self.spec_method(),
            r.1@ == self.spec_uri(),
            headers::headers_view(r.2@) == self.spec_headers(),
            r.3 == self.spec_extensions(),
            (r.4 is Empty) == self.body_is_empty(),
            (r.4 is Streaming) == self.body_is_streaming(),
            self.body_bytes() matches Some(bs) ==> (r.4 matches Body::InMemory(v) && v@ == bs),
            self.wf() ==> {
                &&& validate::is_valid_token(r.0@)
                &&& forall|i: int|
                    0 <= i < r.2@.len() ==> validate::is_valid_token(#[trigger] r.2@[i].0@)
                        && validate::is_valid_value(r.2@[i].1@)
                &&& r.3.wf()
            },
    {
        let Request { method, uri, headers, extensions, body } = self;
        (method, uri, headers, extensions, body)
    }
}

} // verus!
