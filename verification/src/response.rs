//! The response envelope: the status code, the response headers, and a body
//! exposed only as a lazily pulled byte-chunk sequence. The body is never
//! materialized eagerly: a caller who needs it whole drains the adapter.

use vstd::prelude::*;

use crate::adapter::{ByteStreamAdapter, DEFAULT_CHUNK_CAPACITY};
use crate::headers;
use crate::source::ByteSource;
use crate::validate;

verus! {

/// What the transport returns for one request: status, headers, and the
/// lazily consumed body.
pub struct ResponseEnvelope {
    pub(crate) status: u16,
    pub(crate) headers: Vec<(Vec<u8>, Vec<u8>)>,
    pub(crate) body: ByteStreamAdapter,
}

impl ResponseEnvelope {
    /// The response's status code.
    pub closed spec fn spec_status(self) -> u16 {
        self.status
    }

    /// The response headers, in order, duplicates preserved.
    pub closed spec fn spec_headers(self) -> Seq<(Seq<u8>, Seq<u8>)> {
        headers::headers_view(self.headers@)
    }

    /// The adapter the body is consumed through.
    pub closed spec fn spec_body(self) -> ByteStreamAdapter {
        self.body
    }

    /// A well-formed envelope: a real status code, valid headers, and a
    /// well-formed body adapter.
    pub closed spec fn wf(self) -> bool {
        &&& 100 <= self.status < 1000
        &&& forall|i: int|
            0 <= i < self.headers@.len() ==> validate::is_valid_token(
                #[trigger] self.headers@[i].0@,
            ) && validate::is_valid_value(self.headers@[i].1@)
        &&& self.body.wf()
    }

    /// Assembles an envelope: the given status and headers, and a fresh
    /// adapter over the given body source — nothing pulled yet.
    pub fn assemble(status: u16, headers: Vec<(Vec<u8>, Vec<u8>)>, body: Box<dyn ByteSource>) -> (r:
        ResponseEnvelope)
        requires
            100 <= status < 1000,
            forall|i: int|
                0 <= i < headers@.len() ==> validate::is_valid_token(#[trigger] headers@[i].0@)
                    && validate::is_valid_value(headers@[i].1@),
        ensures
            r.wf(),
            r.spec_status() == status,
            r.spec_headers() == headers::headers_view(headers@),
            r.spec_body().is_active(),
            r.spec_body().consumed() == Seq::<u8>::empty(),
            r.spec_body().emitted() == Seq::<u8>::empty(),
            r.spec_body().spec_capacity() == DEFAULT_CHUNK_CAPACITY,
    {
        ResponseEnvelope { status, headers, body: ByteStreamAdapter::new(body) }
    }

    /// The status code.
    pub fn status(&self) -> (r: u16)
        ensures
            r == self.spec_status(),
    {
        self.status
    }

    /// The first header value stored under `name`, matched without regard to
    /// ASCII case.
    pub fn get_header(&self, name: &[u8]) -> (r: Option<&Vec<u8>>)
        ensures
            match r {
                Some(v) => headers::header_lookup(self.spec_headers(), name@) == Some(v@),
                None => headers::header_lookup(self.spec_headers(), name@) is None,
            },
    {
        headers::find_header(&self.headers, name)
    }

    /// The body adapter, to pull chunks from.
    pub fn body_mut(&mut self) -> (r: &mut ByteStreamAdapter)
        ensures
            *r == old(self).spec_body(),
            final(self).spec_body() == *final(r),
            final(self).spec_status() == old(self).spec_status(),
            final(self).spec_headers() == old(self).spec_headers(),
            old(self).wf() && final(r).wf() ==> final(self).wf(),
    {
        &mut self.body
    }

    /// Takes the body adapter out, giving up the envelope.
    pub fn into_body(self) -> (r: ByteStreamAdapter)
        ensures
            r == self.spec_body(),
    {
        self.body
    }
}

} // verus!
