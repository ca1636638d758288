//! A commit as read from the engine, its parent cursors, and the content of
//! an amended commit.
use vstd::prelude::*;
use vstd::utf8::valid_utf8;
use crate::cstr::{c_bytes, c_string, has_nul, opt_bytes, opt_c_string, opt_text, text_bytes};
use crate::error::Error;
use crate::ident::{Oid, Signature, SignatureView, Time};

verus! {

/// What a commit holds.
pub ghost struct CommitView {
    pub id: Seq<u8>,
    pub tree_id: Seq<u8>,
    pub message: Seq<u8>,
    pub message_raw: Seq<u8>,
    pub raw_header: Seq<u8>,
    pub message_encoding: Option<Seq<char>>,
    pub summary: Option<Seq<u8>>,
    pub time: Time,
    pub author: SignatureView,
    pub committer: SignatureView,
    pub parent_ids: Seq<Seq<u8>>,
}

/// The fields of a commit as the engine reports them.
pub struct CommitData {
    pub id: Oid,
    pub tree_id: Oid,
    /// The message without its leading newlines.
    pub message: Vec<u8>,
    /// The message as stored.
    pub message_raw: Vec<u8>,
    /// The header as stored.
    pub raw_header: Vec<u8>,
    pub message_encoding: Option<String>,
    /// The first paragraph of the message, whitespace squashed, if the engine
    /// could compute it.
    pub summary: Option<Vec<u8>>,
    pub time: Time,
    pub author: Signature,
    pub committer: Signature,
    /// The parents' ids, in the engine's order.
    pub parent_ids: Vec<Oid>,
}

/// The ids of a list of ids.
pub open spec fn id_seq(ids: Seq<Oid>) -> Seq<Seq<u8>> {
    ids.map_values(|o: Oid| o@)
}

impl View for CommitData {
    type V = CommitView;

    open spec fn view(&self) -> CommitView {
        CommitView {
            id: self.id@,
            tree_id: self.tree_id@,
            message: self.message@,
            message_raw: self.message_raw@,
            raw_header: self.raw_header@,
            message_encoding: opt_text(self.message_encoding),
            summary: opt_bytes(self.summary),
            time: self.time,
            author: self.author@,
            committer: self.committer@,
            parent_ids: id_seq(self.parent_ids@),
        }
    }
}

/// A commit: one object read from the engine, owned by exactly one value.
pub struct Commit {
    data: CommitData,
}

impl View for Commit {
    type V = CommitView;

    closed spec fn view(&self) -> CommitView {
        self.data@
    }
}

/// The text that valid UTF-8 bytes decode to, if they are valid.
pub open spec fn utf8_of(b: Seq<u8>, r: Option<&str>) -> bool {
    &&& (r is Some <==> valid_utf8(b))
    &&& (r matches Some(s) ==> text_bytes(s@) == b)
}

/// Relies on std::str::from_utf8: it succeeds exactly on valid UTF-8, and the
/// text it returns is made of the given bytes.
#[verifier::external_body]
fn utf8_text(b: &[u8]) -> (r: Option<&str>)
    ensures
        utf8_of(b@, r),
{
    std::str::from_utf8(b).ok()
}

/// A parent to load: its position among the commit's parents and its id.
pub struct ParentRef {
    pub index: usize,
    pub id: Oid,
}

impl Commit {
    /// Takes ownership of a commit's fields.
    pub fn from_raw(data: CommitData) -> (r: Commit)
        ensures
            r@ == data@,
    {
        Commit { data }
    }

    /// The commit's id.
    pub fn id(&self) -> (r: Oid)
        ensures
            r@ == self@.id,
    {
        self.data.id.copy()
    }

    /// The id of the commit's tree.
    pub fn tree_id(&self) -> (r: Oid)
        ensures
            r@ == self@.tree_id,
    {
        self.data.tree_id.copy()
    }

    /// The message, or `None` if it is not valid UTF-8.
    pub fn message(&self) -> (r: Option<&str>)
        ensures
            utf8_of(self@.message, r),
    {
        utf8_text(self.data.message.as_slice())
    }

    /// The message's bytes, without leading newlines.
    pub fn message_bytes(&self) -> (r: &[u8])
        ensures
            r@ == self@.message,
    {
        self.data.message.as_slice()
    }

    /// The name of the message's encoding, if the commit gives one.
    pub fn message_encoding(&self) -> (r: Option<&str>)
        ensures
            r is Some <==> self@.message_encoding is Some,
            r matches Some(s) ==> self@.message_encoding == Some(s@),
    {
        match &self.data.message_encoding {
            Some(e) => Some(e.as_str()),
            None => None,
        }
    }

    /// The message as stored, or `None` if it is not valid UTF-8.
    pub fn message_raw(&self) -> (r: Option<&str>)
        ensures
            utf8_of(self@.message_raw, r),
    {
        utf8_text(self.data.message_raw.as_slice())
    }

    /// The message's bytes as stored.
    pub fn message_raw_bytes(&self) -> (r: &[u8])
        ensures
            r@ == self@.message_raw,
    {
        self.data.message_raw.as_slice()
    }

    /// The header as stored, or `None` if it is not valid UTF-8.
    pub fn raw_header(&self) -> (r: Option<&str>)
        ensures
            utf8_of(self@.raw_header, r),
    {
        utf8_text(self.data.raw_header.as_slice())
    }

    /// The header's bytes as stored.
    pub fn raw_header_bytes(&self) -> (r: &[u8])
        ensures
            r@ == self@.raw_header,
    {
        self.data.raw_header.as_slice()
    }

    /// The summary, or `None` if there is none or it is not valid UTF-8.
    pub fn summary(&self) -> (r: Option<&str>)
        ensures
            r is Some ==> self@.summary is Some,
            self@.summary matches Some(b) ==> utf8_of(b, r),
    {
        match &self.data.summary {
            Some(b) => utf8_text(b.as_slice()),
            None => None,
        }
    }

    /// The summary's bytes, if the engine computed one.
    pub fn summary_bytes(&self) -> (r: Option<&[u8]>)
        ensures
            r is Some <==> self@.summary is Some,
            r matches Some(b) ==> self@.summary == Some(b@),
    {
        match &self.data.summary {
            Some(b) => Some(b.as_slice()),
            None => None,
        }
    }

    /// The committer's time.
    pub fn time(&self) -> (r: Time)
        ensures
            r == self@.time,
    {
        self.data.time
    }

    /// The author.
    pub fn author(&self) -> (r: &Signature)
        ensures
            r@ == self@.author,
    {
        &self.data.author
    }

    /// The committer.
    pub fn committer(&self) -> (r: &Signature)
        ensures
            r@ == self@.committer,
    {
        &self.data.committer
    }

    /// The number of parents.
    pub fn parent_count(&self) -> (r: usize)
        ensures
            r == self@.parent_ids.len(),
    {
        self.data.parent_ids.len()
    }

    /// The id of the parent at `i`; an error if there are not that many
    /// parents.
    pub fn parent_id(&self, i: usize) -> (r: Result<Oid, Error>)
        ensures
            r is Ok <==> i < self@.parent_ids.len(),
            r matches Ok(id) ==> id@ == self@.parent_ids[i as int],
            r matches Err(e) ==> e == (Error::ParentOutOfBounds {
                index: i,
                count: self@.parent_ids.len() as usize,
            }),
    {
        if i < self.data.parent_ids.len() {
            Ok(self.data.parent_ids[i].copy())
        } else {
            Err(Error::ParentOutOfBounds { index: i, count: self.data.parent_ids.len() })
        }
    }

    /// The parent at `i`, to be loaded from the engine; an error if there are
    /// not that many parents.
    pub fn parent(&self, i: usize) -> (r: Result<ParentRef, Error>)
        ensures
            r is Ok <==> i < self@.parent_ids.len(),
            r matches Ok(p) ==> p.index == i && p.id@ == self@.parent_ids[i as int],
            r matches Err(e) ==> e == (Error::ParentOutOfBounds {
                index: i,
                count: self@.parent_ids.len() as usize,
            }),
    {
        match self.parent_id(i) {
            Ok(id) => Ok(ParentRef { index: i, id }),
            Err(e) => Err(e),
        }
    }

    /// A cursor over the parents, bounded by the parent count taken now.
    pub fn parents(&self) -> (r: Parents<'_>)
        ensures
            r@ == (ParentCursor { ids: self@.parent_ids, front: 0, back: self@.parent_ids.len() as int }),
    {
        Parents { commit: self, front: 0, back: self.data.parent_ids.len() }
    }

    /// A cursor over the parents' ids, bounded by the parent count taken now.
    pub fn parent_ids(&self) -> (r: ParentIds<'_>)
        ensures
            r@ == (ParentCursor { ids: self@.parent_ids, front: 0, back: self@.parent_ids.len() as int }),
    {
        ParentIds { parents: self.parents() }
    }
}

/// Where a parent cursor stands: the ids it walks, the next index from the
/// front, and the index one past the next from the back.
pub ghost struct ParentCursor {
    pub ids: Seq<Seq<u8>>,
    pub front: int,
    pub back: int,
}

impl ParentCursor {
    /// How many parents are left.
    pub open spec fn remaining(self) -> int {
        self.back - self.front
    }

    /// The ids still to come, in the commit's order.
    pub open spec fn ahead(self) -> Seq<Seq<u8>> {
        self.ids.subrange(self.front, self.back)
    }

    /// The cursor stands within its ids.
    pub open spec fn wf(self) -> bool {
        0 <= self.front <= self.back <= self.ids.len()
    }
}

/// A cursor fresh from a commit with N parents walks all N of them: forward it
/// yields, step k, the id that the lookup at index k gives, and backward the
/// same ids in reverse.
pub proof fn lemma_fresh_cursor_walks_all(c: ParentCursor)
    requires
        c.front == 0,
        c.back == c.ids.len(),
    ensures
        c.ahead() == c.ids,
        c.ahead().reverse().len() == c.ids.len(),
        forall|k: int| 0 <= k < c.ids.len() ==> #[trigger] c.ahead().reverse()[k] == c.ids[c.ids.len() - 1 - k],
{
    assert(c.ahead() =~= c.ids);
}

/// Walks a commit's parents from either end, yielding each parent to load.
pub struct Parents<'a> {
    commit: &'a Commit,
    front: usize,
    back: usize,
}

impl<'a> View for Parents<'a> {
    type V = ParentCursor;

    closed spec fn view(&self) -> ParentCursor {
        ParentCursor { ids: self.commit@.parent_ids, front: self.front as int, back: self.back as int }
    }
}

impl<'a> Parents<'a> {
    #[verifier::type_invariant]
    spec fn bounded(&self) -> bool {
        self.front <= self.back <= self.commit.data.parent_ids.len()
    }

    /// The next parent from the front, if any is left.
    pub fn next(&mut self) -> (r: Option<ParentRef>)
        ensures
            final(self)@.ids == old(self)@.ids,
            final(self)@.back == old(self)@.back,
            old(self)@.front < old(self)@.back ==> (r matches Some(p) && p.index == old(self)@.front
                && p.id@ == old(self)@.ids[old(self)@.front]
                && final(self)@.front == old(self)@.front + 1),
            old(self)@.front >= old(self)@.back ==> (r is None
                && final(self)@.front == old(self)@.front),
    {
        proof {
            use_type_invariant(&*self);
        }
        if self.front < self.back {
            let i = self.front;
            let id = self.commit.data.parent_ids[i].copy();
            self.front = i + 1;
            Some(ParentRef { index: i, id })
        } else {
            None
        }
    }

    /// The next parent from the back, if any is left.
    pub fn next_back(&mut self) -> (r: Option<ParentRef>)
        ensures
            final(self)@.ids == old(self)@.ids,
            final(self)@.front == old(self)@.front,
            old(self)@.front < old(self)@.back ==> (r matches Some(p) && p.index == old(self)@.back - 1
                && p.id@ == old(self)@.ids[old(self)@.back - 1]
                && final(self)@.back == old(self)@.back - 1),
            old(self)@.front >= old(self)@.back ==> (r is None
                && final(self)@.back == old(self)@.back),
    {
        proof {
            use_type_invariant(&*self);
        }
        if self.front < self.back {
            let i = self.back - 1;
            let id = self.commit.data.parent_ids[i].copy();
            self.back = i;
            Some(ParentRef { index: i, id })
        } else {
            None
        }
    }

    /// The exact number of parents left, as a lower and an upper bound.
    pub fn size_hint(&self) -> (r: (usize, Option<usize>))
        ensures
            self@.wf(),
            r.0 == self@.remaining(),
            r.1 == Some(self@.remaining() as usize),
    {
        proof {
            use_type_invariant(self);
        }
        let n = self.back - self.front;
        (n, Some(n))
    }

    /// The number of parents left.
    pub fn len(&self) -> (r: usize)
        ensures
            self@.wf(),
            r == self@.remaining(),
    {
        proof {
            use_type_invariant(self);
        }
        self.back - self.front
    }
}

/// Walks a commit's parents' ids from either end.
pub struct ParentIds<'a> {
    parents: Parents<'a>,
}

impl<'a> View for ParentIds<'a> {
    type V = ParentCursor;

    closed spec fn view(&self) -> ParentCursor {
        self.parents@
    }
}

impl<'a> ParentIds<'a> {
    /// The next id from the front, if any is left.
    pub fn next(&mut self) -> (r: Option<Oid>)
        ensures
            final(self)@.ids == old(self)@.ids,
            final(self)@.back == old(self)@.back,
            old(self)@.front < old(self)@.back ==> (r matches Some(id)
                && id@ == old(self)@.ids[old(self)@.front]
                && final(self)@.front == old(self)@.front + 1),
            old(self)@.front >= old(self)@.back ==> (r is None
                && final(self)@.front == old(self)@.front),
    {
        match self.parents.next() {
            Some(p) => Some(p.id),
            None => None,
        }
    }

    /// The next id from the back, if any is left.
    pub fn next_back(&mut self) -> (r: Option<Oid>)
        ensures
            final(self)@.ids == old(self)@.ids,
            final(self)@.front == old(self)@.front,
            old(self)@.front < old(self)@.back ==> (r matches Some(id)
                && id@ == old(self)@.ids[old(self)@.back - 1]
                && final(self)@.back == old(self)@.back - 1),
            old(self)@.front >= old(self)@.back ==> (r is None
                && final(self)@.back == old(self)@.back),
    {
        match self.parents.next_back() {
            Some(p) => Some(p.id),
            None => None,
        }
    }

    /// The exact number of ids left, as a lower and an upper bound.
    pub fn size_hint(&self) -> (r: (usize, Option<usize>))
        ensures
            self@.wf(),
            r.0 == self@.remaining(),
            r.1 == Some(self@.remaining() as usize),
    {
        self.parents.size_hint()
    }

    /// The number of ids left.
    pub fn len(&self) -> (r: usize)
        ensures
            self@.wf(),
            r == self@.remaining(),
    {
        self.parents.len()
    }

    /// Takes every id left, walking from the front: the ids in the commit's
    /// order.
    pub fn collect_forward(&mut self) -> (r: Vec<Oid>)
        ensures
            id_seq(r@) == old(self)@.ahead(),
            final(self)@.ids == old(self)@.ids,
            final(self)@.remaining() == 0,
    {
        let _ = self.len();
        let mut out: Vec<Oid> = Vec::new();
        loop
            invariant
                self@.ids == old(self)@.ids,
                self@.back == old(self)@.back,
                old(self)@.wf(),
                old(self)@.front <= self@.front <= self@.back <= self@.ids.len(),
                id_seq(out@) == old(self)@.ids.subrange(old(self)@.front, self@.front),
            ensures
                self@.ids == old(self)@.ids,
                self@.front == self@.back == old(self)@.back,
                id_seq(out@) == old(self)@.ahead(),
            decreases self@.back - self@.front,
        {
            let ghost before = out@;
            match self.next() {
                Some(id) => {
                    out.push(id);
                    assert(id_seq(out@) =~= id_seq(before).push(id@));
                    assert(id_seq(out@) =~= old(self)@.ids.subrange(old(self)@.front, self@.front));
                },
                None => {
                    break ;
                },
            }
        }
        out
    }

    /// Takes every id left, walking from the back: the ids in the reverse of
    /// the commit's order.
    pub fn collect_backward(&mut self) -> (r: Vec<Oid>)
        ensures
            id_seq(r@) == old(self)@.ahead().reverse(),
            final(self)@.ids == old(self)@.ids,
            final(self)@.remaining() == 0,
    {
        let _ = self.len();
        let mut out: Vec<Oid> = Vec::new();
        loop
            invariant
                self@.ids == old(self)@.ids,
                self@.front == old(self)@.front,
                old(self)@.wf(),
                self@.front <= self@.back <= old(self)@.back,
                id_seq(out@) == old(self)@.ids.subrange(self@.back, old(self)@.back).reverse(),
            ensures
                self@.ids == old(self)@.ids,
                self@.front == self@.back == old(self)@.front,
                id_seq(out@) == old(self)@.ahead().reverse(),
            decreases self@.back - self@.front,
        {
            let ghost before = out@;
            match self.next_back() {
                Some(id) => {
                    out.push(id);
                    assert(id_seq(out@) =~= id_seq(before).push(id@));
                    assert(id_seq(out@) =~= old(self)@.ids.subrange(self@.back, old(self)@.back).reverse());
                },
                None => {
                    break ;
                },
            }
        }
        out
    }
}

/// The content of a commit amended with some overrides: each field given
/// replaces the amended commit's, and the rest is kept.
pub ghost struct AmendedCommit {
    pub tree_id: Seq<u8>,
    pub author: SignatureView,
    pub committer: SignatureView,
    pub message_encoding: Option<Seq<u8>>,
    pub message: Seq<u8>,
}

/// The text of an optional borrowed string.
pub open spec fn opt_str(o: Option<&str>) -> Option<Seq<char>> {
    match o {
        Some(s) => Some(s@),
        None => None,
    }
}

/// The content of `c` amended with the given overrides.
pub open spec fn amended(
    c: CommitView,
    author: Option<SignatureView>,
    committer: Option<SignatureView>,
    message_encoding: Option<Seq<char>>,
    message: Option<Seq<char>>,
    tree: Option<Seq<u8>>,
) -> AmendedCommit {
    AmendedCommit {
        tree_id: match tree {
            Some(t) => t,
            None => c.tree_id,
        },
        author: match author {
            Some(a) => a,
            None => c.author,
        },
        committer: match committer {
            Some(a) => a,
            None => c.committer,
        },
        message_encoding: match message_encoding {
            Some(e) => Some(text_bytes(e)),
            None => match c.message_encoding {
                Some(e) => Some(text_bytes(e)),
                None => None,
            },
        },
        message: match message {
            Some(m) => text_bytes(m),
            None => c.message_raw,
        },
    }
}

/// Everything one amend hands to the engine, which writes the new commit
/// with the amended commit's parents.
pub struct AmendRequest<'a> {
    /// The reference to point at the new commit, as a C string.
    pub update_ref: Option<Vec<u8>>,
    pub tree_id: Oid,
    pub author: &'a Signature,
    pub committer: &'a Signature,
    /// The encoding's name, as a C string.
    pub message_encoding: Option<Vec<u8>>,
    /// The message, as a C string.
    pub message: Vec<u8>,
}

/// An optional byte sequence followed by a NUL.
pub open spec fn opt_terminated(o: Option<Seq<u8>>) -> Option<Seq<u8>> {
    match o {
        Some(b) => Some(b.push(0u8)),
        None => None,
    }
}

impl<'a> AmendRequest<'a> {
    /// Whether this request writes the given content.
    pub open spec fn writes(self, a: AmendedCommit) -> bool {
        &&& self.tree_id@ == a.tree_id
        &&& self.author@ == a.author
        &&& self.committer@ == a.committer
        &&& opt_bytes(self.message_encoding) == opt_terminated(a.message_encoding)
        &&& self.message@ == a.message.push(0u8)
    }
}

/// The signature behind an optional reference.
pub open spec fn opt_sig(o: Option<&Signature>) -> Option<SignatureView> {
    match o {
        Some(s) => Some(s@),
        None => None,
    }
}

/// The id behind an optional reference.
pub open spec fn opt_oid(o: Option<&Oid>) -> Option<Seq<u8>> {
    match o {
        Some(t) => Some(t@),
        None => None,
    }
}

/// Whether an optional byte sequence holds a NUL byte.
pub open spec fn opt_bytes_have_nul(o: Option<Seq<u8>>) -> bool {
    match o {
        Some(b) => has_nul(b),
        None => false,
    }
}

impl Commit {
    /// Prepares a new commit that is this one with every given field
    /// replaced; it keeps this commit's parents. Fails, before anything
    /// reaches the engine, if the reference name, the encoding or the message
    /// that would be written holds a NUL byte.
    pub fn amend<'a>(
        &'a self,
        update_ref: Option<&str>,
        author: Option<&'a Signature>,
        committer: Option<&'a Signature>,
        message_encoding: Option<&str>,
        message: Option<&str>,
        tree: Option<&Oid>,
    ) -> (r: Result<AmendRequest<'a>, Error>)
        ensures
            ({
                let a = amended(
                    self@,
                    opt_sig(author),
                    opt_sig(committer),
                    opt_str(message_encoding),
                    opt_str(message),
                    opt_oid(tree),
                );
                &&& r is Ok <==> !(opt_str(update_ref) matches Some(u) && has_nul(text_bytes(u)))
                    && !opt_bytes_have_nul(a.message_encoding) && !has_nul(a.message)
                &&& r matches Ok(q) ==> q.writes(a) && opt_bytes(q.update_ref) == match update_ref {
                    Some(u) => Some(text_bytes(u@).push(0u8)),
                    None => None::<Seq<u8>>,
                }
                &&& r matches Err(e) ==> e is InvalidNul
            }),
    {
        let update_ref = match update_ref {
            Some(u) => Some(c_string(u)?),
            None => None,
        };
        let message_encoding = match message_encoding {
            Some(e) => Some(c_string(e)?),
            None => opt_c_string(&self.data.message_encoding)?,
        };
        let message = match message {
            Some(m) => c_string(m)?,
            None => c_bytes(self.data.message_raw.as_slice())?,
        };
        let tree_id = match tree {
            Some(t) => t.copy(),
            None => self.data.tree_id.copy(),
        };
        let author = match author {
            Some(a) => a,
            None => &self.data.author,
        };
        let committer = match committer {
            Some(c) => c,
            None => &self.data.committer,
        };
        Ok(AmendRequest { update_ref, tree_id, author, committer, message_encoding, message })
    }
}

/// Amending with a new message and nothing else keeps the tree, the author
/// and the committer, and writes exactly the new message.
pub proof fn lemma_amend_message_only(c: CommitView, message: Seq<char>)
    ensures
        amended(c, None, None, None, Some(message), None).tree_id == c.tree_id,
        amended(c, None, None, None, Some(message), None).author == c.author,
        amended(c, None, None, None, Some(message), None).committer == c.committer,
        amended(c, None, None, None, Some(message), None).message == text_bytes(message),
{
}

} // verus!
