//! Handle-owning value types for the native engine's objects.
//!
//! A native repository or commit object lives behind a handle that must be
//! released exactly once. Here each such handle is carried by a value type
//! that owns it: the handle token goes in at construction and comes out only
//! through [`Repository::release`] or [`Commit::release`], which consume the
//! value. Once released, the value is gone and no operation can reach the
//! handle again — the `Open → Released` transition happens at most once per
//! value by ownership alone. The shell performs the actual native free with
//! the token it gets back.
//!
//! A commit's author signature and message are copied out of the native
//! object when the commit value is built, so a [`Signature`] stays readable
//! for as long as the [`Commit`] value that produced it, and nothing ever
//! reads through a released handle.

use vstd::prelude::*;

verus! {

use crate::text::decode_text;
use crate::text::decoded_text;
use crate::text::view_opt_bytes;

/// A 20-byte object identifier, a plain value copied freely.
#[derive(Clone, Copy)]
pub struct Oid {
    pub id: [u8; 20],
}

/// Owner of one native repository handle.
///
/// The handle token is a plain value standing for the native pointer; it is
/// never null for a successfully opened repository. The value is built from
/// the token of a successful native open and gives it back exactly once,
/// through [`Repository::release`].
pub struct Repository {
    raw: usize,
}

impl Repository {
    /// The native handle this value owns, as a plain token.
    pub closed spec fn handle(&self) -> usize {
        self.raw
    }

    /// A well-formed repository owns a non-null handle.
    pub open spec fn wf(&self) -> bool {
        self.handle() != 0
    }

    /// Takes ownership of the handle a successful native open returned.
    pub fn from_native(raw: usize) -> (r: Repository)
        requires
            raw != 0,
        ensures
            r.handle() == raw,
            r.wf(),
    {
        Repository { raw }
    }

    /// The owned handle, for passing to native calls that borrow it.
    pub fn native(&self) -> (h: usize)
        ensures
            h == self.handle(),
    {
        self.raw
    }

    /// Gives up ownership, returning the handle for the one native free.
    ///
    /// Consuming `self` is what makes the release happen at most once: after
    /// this call no copy of the value remains to release again.
    pub fn release(self) -> (h: usize)
        ensures
            h == self.handle(),
    {
        self.raw
    }
}

/// An author or committer record copied out of a native commit: name and
/// email as optional byte strings, each absent when the engine reported a
/// null pointer.
pub struct Signature {
    name: Option<Vec<u8>>,
    email: Option<Vec<u8>>,
}

impl Signature {
    /// The name bytes, or nothing for a null native pointer.
    pub closed spec fn name_bytes(&self) -> Option<Seq<u8>> {
        view_opt_bytes(&self.name)
    }

    /// The email bytes, or nothing for a null native pointer.
    pub closed spec fn email_bytes(&self) -> Option<Seq<u8>> {
        view_opt_bytes(&self.email)
    }

    /// Builds the record from the bytes copied out of the native signature.
    pub fn new(name: Option<Vec<u8>>, email: Option<Vec<u8>>) -> (s: Signature)
        ensures
            s.name_bytes() == view_opt_bytes(&name),
            s.email_bytes() == view_opt_bytes(&email),
    {
        Signature { name, email }
    }

    /// The author's name as text: its UTF-8 decoding, or nothing when the
    /// engine reported a null pointer or the bytes are not valid UTF-8.
    pub fn name(&self) -> (r: Option<String>)
        ensures
            (r is Some) <==> (decoded_text(self.name_bytes()) is Some),
            r matches Some(s) ==> decoded_text(self.name_bytes()) == Some(s@),
    {
        decode_text(&self.name)
    }

    /// The author's email as text, under the same policy as
    /// [`Signature::name`].
    pub fn email(&self) -> (r: Option<String>)
        ensures
            (r is Some) <==> (decoded_text(self.email_bytes()) is Some),
            r matches Some(s) ==> decoded_text(self.email_bytes()) == Some(s@),
    {
        decode_text(&self.email)
    }
}

/// Owner of one native commit handle, together with the author signature and
/// message bytes copied out of the native object when it was looked up.
pub struct Commit {
    raw: usize,
    author: Signature,
    message: Option<Vec<u8>>,
}

impl Commit {
    /// The native handle this value owns, as a plain token.
    pub closed spec fn handle(&self) -> usize {
        self.raw
    }

    /// The author record copied out of the native commit.
    pub closed spec fn author_spec(&self) -> Signature {
        self.author
    }

    /// The message bytes, or nothing for a null native pointer.
    pub closed spec fn message_bytes(&self) -> Option<Seq<u8>> {
        view_opt_bytes(&self.message)
    }

    /// A well-formed commit owns a non-null handle.
    pub open spec fn wf(&self) -> bool {
        self.handle() != 0
    }

    /// Takes ownership of the handle a successful native lookup returned,
    /// together with the author and message bytes copied from the object.
    pub fn from_native(raw: usize, author: Signature, message: Option<Vec<u8>>) -> (c: Commit)
        requires
            raw != 0,
        ensures
            c.handle() == raw,
            c.author_spec() == author,
            c.message_bytes() == view_opt_bytes(&message),
            c.wf(),
    {
        Commit { raw, author, message }
    }

    /// The commit's author record. Cannot fail for a live commit.
    pub fn author(&self) -> (r: &Signature)
        ensures
            *r == self.author_spec(),
    {
        &self.author
    }

    /// The commit's message as text: its UTF-8 decoding, or nothing when the
    /// engine reported a null pointer or the bytes are not valid UTF-8.
    pub fn message(&self) -> (r: Option<String>)
        ensures
            (r is Some) <==> (decoded_text(self.message_bytes()) is Some),
            r matches Some(s) ==> decoded_text(self.message_bytes()) == Some(s@),
    {
        decode_text(&self.message)
    }

    /// Gives up ownership, returning the handle for the one native free.
    pub fn release(self) -> (h: usize)
        ensures
            h == self.handle(),
    {
        self.raw
    }
}

} // verus!
