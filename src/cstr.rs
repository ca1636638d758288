//! Owned NUL-terminated buffers, one per configuration string, and the table
//! that a list-valued option points into.
use vstd::prelude::*;
use vstd::utf8::encode_utf8;
use crate::error::Error;

verus! {

/// Whether a byte sequence holds a NUL byte anywhere.
pub open spec fn has_nul(b: Seq<u8>) -> bool {
    exists|i: int| 0 <= i < b.len() && b[i] == 0
}

/// The UTF-8 bytes of a text.
pub open spec fn text_bytes(s: Seq<char>) -> Seq<u8> {
    encode_utf8(s)
}

/// The buffer that stands for a text: its bytes followed by one NUL.
pub open spec fn c_buffer(s: Seq<char>) -> Seq<u8> {
    text_bytes(s).push(0u8)
}

/// What a reader of a C string at the buffer's first byte sees: every byte
/// before the first NUL.
pub open spec fn c_read(buf: Seq<u8>) -> Seq<u8>
    decreases buf.len(),
{
    if buf.len() == 0 || buf[0] == 0 {
        Seq::empty()
    } else {
        seq![buf[0]].add(c_read(buf.drop_first()))
    }
}

/// A buffer made of NUL-free bytes and a final NUL reads back as those bytes.
pub proof fn lemma_c_read_terminated(b: Seq<u8>)
    requires
        !has_nul(b),
    ensures
        c_read(b.push(0u8)) == b,
    decreases b.len(),
{
    if b.len() == 0 {
        assert(b.push(0u8)[0] == 0);
    } else {
        let rest = b.drop_first();
        assert(!has_nul(rest)) by {
            if has_nul(rest) {
                let i = choose|i: int| 0 <= i < rest.len() && rest[i] == 0;
                assert(b[i + 1] == 0);
            }
        }
        lemma_c_read_terminated(rest);
        assert(b.push(0u8).drop_first() =~= rest.push(0u8));
        assert(b[0] != 0);
        assert(seq![b[0]].add(rest) =~= b);
    }
}

/// Whether the first `n` bytes of `b` hold a NUL.
pub open spec fn nul_before(b: Seq<u8>, n: int) -> bool {
    exists|i: int| 0 <= i < n && b[i] == 0
}

/// Copies bytes into an owned NUL-terminated buffer, refusing bytes that
/// hold a NUL of their own.
pub fn c_bytes(bytes: &[u8]) -> (r: Result<Vec<u8>, Error>)
    ensures
        r is Ok <==> !has_nul(bytes@),
        r matches Ok(v) ==> v@ == bytes@.push(0u8),
        r matches Err(e) ==> e is InvalidNul,
{
    let mut buf: Vec<u8> = Vec::new();
    let mut i: usize = 0;
    while i < bytes.len()
        invariant
            i <= bytes@.len(),
            buf@ == bytes@.subrange(0, i as int),
            !nul_before(bytes@, i as int),
        decreases bytes.len() - i,
    {
        if bytes[i] == 0 {
            return Err(Error::InvalidNul);
        }
        buf.push(bytes[i]);
        i = i + 1;
        assert(buf@ =~= bytes@.subrange(0, i as int));
    }
    assert(bytes@.subrange(0, i as int) =~= bytes@);
    buf.push(0u8);
    Ok(buf)
}

/// Copies a text into an owned NUL-terminated buffer, refusing a text that
/// holds a NUL of its own.
pub fn c_string(s: &str) -> (r: Result<Vec<u8>, Error>)
    ensures
        r is Ok <==> !has_nul(text_bytes(s@)),
        r matches Ok(v) ==> v@ == c_buffer(s@),
        r matches Err(e) ==> e is InvalidNul,
{
    c_bytes(s.as_bytes())
}

/// An ordered table of owned NUL-terminated buffers.
///
/// Each buffer is allocated on its own, so the table may grow without moving
/// the bytes of the buffers already in it.
pub struct CStringTable {
    buffers: Vec<Vec<u8>>,
}

impl View for CStringTable {
    type V = Seq<Seq<u8>>;

    closed spec fn view(&self) -> Seq<Seq<u8>> {
        self.buffers@.map_values(|b: Vec<u8>| b@)
    }
}

/// The table that stands for a sequence of texts.
pub open spec fn c_table(items: Seq<Seq<char>>) -> Seq<Seq<u8>> {
    items.map_values(|s: Seq<char>| c_buffer(s))
}

/// Whether some text of the sequence holds a NUL byte.
pub open spec fn any_has_nul(items: Seq<Seq<char>>) -> bool {
    exists|i: int| 0 <= i < items.len() && has_nul(text_bytes(items[i]))
}

/// The texts of a list of strings.
pub open spec fn texts(items: Seq<String>) -> Seq<Seq<char>> {
    items.map_values(|s: String| s@)
}

impl CStringTable {
    /// Builds the table for a list of strings, in their order; fails if any
    /// of them holds a NUL byte.
    pub fn from_strings(items: &Vec<String>) -> (r: Result<CStringTable, Error>)
        ensures
            r is Ok <==> !any_has_nul(texts(items@)),
            r matches Ok(t) ==> t@ == c_table(texts(items@)),
            r matches Err(e) ==> e is InvalidNul,
    {
        let mut buffers: Vec<Vec<u8>> = Vec::new();
        let mut i: usize = 0;
        while i < items.len()
            invariant
                i <= items@.len(),
                buffers@.len() == i,
                forall|j: int| 0 <= j < i ==> buffers@[j]@ == c_buffer(#[trigger] items@[j]@),
                forall|j: int| 0 <= j < i ==> !has_nul(text_bytes(#[trigger] items@[j]@)),
            decreases items.len() - i,
        {
            let b = c_string(items[i].as_str());
            match b {
                Ok(v) => {
                    buffers.push(v);
                },
                Err(e) => {
                    assert(has_nul(text_bytes(texts(items@)[i as int])));
                    return Err(e);
                },
            }
            i = i + 1;
        }
        let t = CStringTable { buffers };
        assert(t@ =~= c_table(texts(items@)));
        assert(!any_has_nul(texts(items@))) by {
            if any_has_nul(texts(items@)) {
                let k = choose|k: int| 0 <= k < texts(items@).len() && has_nul(text_bytes(texts(items@)[k]));
                assert(!has_nul(text_bytes(items@[k]@)));
            }
        }
        Ok(t)
    }

    /// The number of buffers.
    pub fn len(&self) -> (r: usize)
        ensures
            r == self@.len(),
    {
        self.buffers.len()
    }

    /// The buffer at `i`, with its final NUL.
    pub fn entry(&self, i: usize) -> (r: &Vec<u8>)
        requires
            i < self@.len(),
        ensures
            r@ == self@[i as int],
    {
        &self.buffers[i]
    }
}

/// Every entry of the table built from some texts is terminated, the table has
/// as many entries as there are texts, in their order, and reading an entry as
/// a C string gives back exactly the bytes of its text.
pub proof fn lemma_table_reads_back(items: Seq<Seq<char>>)
    requires
        !any_has_nul(items),
    ensures
        c_table(items).len() == items.len(),
        forall|i: int| 0 <= i < items.len() ==> c_read(#[trigger] c_table(items)[i]) == text_bytes(items[i]),
        forall|i: int| 0 <= i < items.len() ==> c_table(items)[i].last() == 0u8 && !has_nul(
            c_table(items)[i].drop_last()),
{
    assert forall|i: int| 0 <= i < items.len() implies c_read(#[trigger] c_table(items)[i])
        == text_bytes(items[i]) by {
        assert(!has_nul(text_bytes(items[i])));
        lemma_c_read_terminated(text_bytes(items[i]));
    }
    assert forall|i: int| 0 <= i < items.len() implies c_table(items)[i].last() == 0u8 && !has_nul(
        c_table(items)[i].drop_last()) by {
        assert(!has_nul(text_bytes(items[i])));
        assert(c_table(items)[i].drop_last() =~= text_bytes(items[i]));
    }
}

} // verus!
verus! {

/// Whether an optional text holds a NUL byte.
pub open spec fn opt_has_nul(o: Option<Seq<char>>) -> bool {
    match o {
        Some(s) => has_nul(text_bytes(s)),
        None => false,
    }
}

/// The buffer that stands for an optional text.
pub open spec fn opt_c_buffer(o: Option<Seq<char>>) -> Option<Seq<u8>> {
    match o {
        Some(s) => Some(c_buffer(s)),
        None => None,
    }
}

/// The bytes of an optional buffer.
pub open spec fn opt_bytes(o: Option<Vec<u8>>) -> Option<Seq<u8>> {
    match o {
        Some(v) => Some(v@),
        None => None,
    }
}

/// The text of an optional string.
pub open spec fn opt_text(o: Option<String>) -> Option<Seq<char>> {
    match o {
        Some(s) => Some(s@),
        None => None,
    }
}

/// Copies an optional text into an optional NUL-terminated buffer.
pub fn opt_c_string(o: &Option<String>) -> (r: Result<Option<Vec<u8>>, Error>)
    ensures
        r is Ok <==> !opt_has_nul(opt_text(*o)),
        r matches Ok(v) ==> opt_bytes(v) == opt_c_buffer(opt_text(*o)),
        r matches Err(e) ==> e is InvalidNul,
{
    match o {
        Some(s) => match c_string(s.as_str()) {
            Ok(v) => Ok(Some(v)),
            Err(e) => Err(e),
        },
        None => Ok(None),
    }
}

} // verus!
