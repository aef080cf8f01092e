//! The content digest: MD5, computed by the `md5` crate.
//!
//! The digest is fed in pieces and finished once.  What comes out depends
//! only on the bytes fed, in order, however they were cut into pieces.

use vstd::prelude::*;

verus! {

/// Size (in bytes) of a digest.
pub const DIGEST_LEN: usize = 16;

/// `md5::Context`, the running state of one digest computation.
#[verifier::external_type_specification]
#[verifier::external_body]
pub struct ExContext(md5::Context);

/// The bytes that a context has consumed so far, in order.
pub uninterp spec fn consumed(context: md5::Context) -> Seq<u8>;

/// The MD5 digest of `data`, as `md5::Context::compute` returns it once
/// exactly `data` has been consumed.
pub uninterp spec fn md5_digest(data: Seq<u8>) -> Seq<u8>;

/// The digest of `data` as the sixteen bytes that a header holds.
pub open spec fn digest_of(data: Seq<u8>) -> Seq<u8> {
    Seq::new(DIGEST_LEN as nat, |i: int| md5_digest(data)[i])
}

/// `md5::Context::new`: a context that has consumed nothing.
#[verifier::external_body]
fn context_new() -> (context: md5::Context)
    ensures
        consumed(context) == Seq::<u8>::empty(),
{
    md5::Context::new()
}

/// `md5::Context::consume`: the context has consumed `data` after what it
/// had consumed before.
#[verifier::external_body]
fn context_consume(context: &mut md5::Context, data: &[u8])
    ensures
        consumed(*final(context)) == consumed(*old(context)) + data@,
{
    context.consume(data)
}

/// `md5::Context::compute`: the sixteen bytes of the digest of all that the
/// context has consumed.
#[verifier::external_body]
fn context_compute(context: md5::Context) -> (digest: [u8; 16])
    ensures
        digest@ == md5_digest(consumed(context)),
{
    context.compute().0
}

/// A digest in the making.
pub struct Hasher {
    context: md5::Context,
}

impl View for Hasher {
    type V = Seq<u8>;

    /// The bytes fed so far.
    closed spec fn view(&self) -> Seq<u8> {
        consumed(self.context)
    }
}

impl Hasher {
    /// Start a digest over no bytes.
    pub fn new() -> (hasher: Hasher)
        ensures
            hasher@ == Seq::<u8>::empty(),
    {
        Hasher { context: context_new() }
    }

    /// Feed the next piece of the data.
    pub fn feed(&mut self, data: &[u8])
        ensures
            final(self)@ == old(self)@ + data@,
    {
        context_consume(&mut self.context, data);
    }

    /// Finish, and return the digest of all that was fed.
    pub fn finish(self) -> (digest: [u8; 16])
        ensures
            digest@ == digest_of(self@),
    {
        let digest = context_compute(self.context);
        digest
    }
}

/// The digest of `data`.
pub fn digest(data: &[u8]) -> (digest: [u8; 16])
    ensures
        digest@ == digest_of(data@),
{
    let mut hasher = Hasher::new();
    hasher.feed(data);
    hasher.finish()
}

} // verus!
