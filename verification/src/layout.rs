//! How much room a record takes when it is stored, and the limits on its
//! variable-length fields that keep it inside the room reserved for it.
//!
//! A stored record is an 8-byte type tag followed by its fields in order. A
//! text is stored as a 4-byte length and its UTF-8 bytes, a list as a 4-byte
//! count and its entries.

use vstd::prelude::*;
use vstd::utf8::encode_utf8;

verus! {

/// Bytes of the type tag that precedes every stored record.
pub const TAG_BYTES: usize = 8;

/// Bytes of an identity.
pub const IDENTITY_BYTES: usize = 32;

/// Bytes of the length that precedes a text or a list.
pub const PREFIX_BYTES: usize = 4;

/// Most bytes a title may take.
pub const MAX_TITLE_BYTES: usize = 100;

/// Most authors a record may name.
pub const MAX_AUTHORS: usize = 10;

/// Most bytes one author's name may take.
pub const MAX_AUTHOR_BYTES: usize = 50;

/// Most bytes a DOI may take.
pub const MAX_DOI_BYTES: usize = 50;

/// Bytes reserved for the fields of a record, the type tag not counted.
pub const RECORD_BYTES: usize = IDENTITY_BYTES + (PREFIX_BYTES + MAX_TITLE_BYTES) + (PREFIX_BYTES
    + MAX_AUTHORS * (PREFIX_BYTES + MAX_AUTHOR_BYTES)) + (PREFIX_BYTES + MAX_DOI_BYTES) + 8 + 8 + 8
    + 8 + 1;

/// Bytes reserved for a stored record, type tag included.
pub const SPACE: usize = TAG_BYTES + RECORD_BYTES;

/// Number of bytes of `text` in UTF-8.
pub open spec fn byte_len(text: Seq<char>) -> nat {
    encode_utf8(text).len()
}

/// The variable-length fields respect their limits: the title and the DOI in
/// bytes, the authors in number and each of them in bytes.
pub open spec fn fields_fit(title: Seq<char>, authors: Seq<Seq<char>>, doi: Seq<char>) -> bool {
    &&& byte_len(title) <= MAX_TITLE_BYTES
    &&& authors.len() <= MAX_AUTHORS
    &&& forall|i: int| 0 <= i < authors.len() ==> byte_len(#[trigger] authors[i]) <= MAX_AUTHOR_BYTES
    &&& byte_len(doi) <= MAX_DOI_BYTES
}

/// Bytes that the entries of a list of texts take, each with its length prefix.
pub open spec fn entries_size(texts: Seq<Seq<char>>) -> nat
    decreases texts.len(),
{
    if texts.len() == 0 {
        0
    } else {
        entries_size(texts.drop_last()) + PREFIX_BYTES as nat + byte_len(texts.last())
    }
}

/// Bytes that a record with these variable-length fields takes when stored:
/// the type tag, the authority, the three prefixed fields, the impact score,
/// the three 8-byte numbers and the switch.
pub open spec fn stored_size(title: Seq<char>, authors: Seq<Seq<char>>, doi: Seq<char>) -> nat {
    let tag = TAG_BYTES as nat;
    let authority = IDENTITY_BYTES as nat;
    let title_field = PREFIX_BYTES as nat + byte_len(title);
    let authors_field = PREFIX_BYTES as nat + entries_size(authors);
    let doi_field = PREFIX_BYTES as nat + byte_len(doi);
    tag + authority + title_field + authors_field + doi_field + 8 + 8 + 8 + 8 + 1
}

/// A list of texts of bounded length takes at most as much as its count allows.
pub proof fn lemma_entries_size_bound(texts: Seq<Seq<char>>, limit: nat)
    requires
        forall|i: int| 0 <= i < texts.len() ==> byte_len(#[trigger] texts[i]) <= limit,
    ensures
        entries_size(texts) <= texts.len() * (PREFIX_BYTES as nat + limit),
    decreases texts.len(),
{
    if texts.len() > 0 {
        let init = texts.drop_last();
        assert forall|i: int| 0 <= i < init.len() implies byte_len(#[trigger] init[i]) <= limit by {
            assert(init[i] == texts[i]);
        }
        lemma_entries_size_bound(init, limit);
        let each = PREFIX_BYTES as nat + limit;
        assert(texts.len() * each == init.len() * each + each) by (nonlinear_arith)
            requires
                texts.len() == init.len() + 1,
        ;
    }
}

/// Fields within their limits give a record that fits the reserved space.
pub proof fn lemma_fitting_fields_fit_space(
    title: Seq<char>,
    authors: Seq<Seq<char>>,
    doi: Seq<char>,
)
    requires
        fields_fit(title, authors, doi),
    ensures
        stored_size(title, authors, doi) <= SPACE,
        SPACE == 775,
{
    lemma_entries_size_bound(authors, MAX_AUTHOR_BYTES as nat);
    let each = PREFIX_BYTES as nat + MAX_AUTHOR_BYTES as nat;
    assert(authors.len() * each <= 10 * 54) by (nonlinear_arith)
        requires
            authors.len() <= 10,
            each == 54,
    ;
}

/// Whether a text takes at most `limit` bytes in UTF-8.
pub fn text_fits(text: &String, limit: usize) -> (ok: bool)
    ensures
        ok == (byte_len(text@) <= limit),
{
    text.as_str().as_bytes().len() <= limit
}

/// Whether the variable-length fields of a record respect their limits.
pub fn check_fields(title: &String, authors: &Vec<String>, doi: &String) -> (ok: bool)
    ensures
        ok == fields_fit(title@, authors.deep_view(), doi@),
{
    if !text_fits(title, MAX_TITLE_BYTES) || !text_fits(doi, MAX_DOI_BYTES) {
        return false;
    }
    if authors.len() > MAX_AUTHORS {
        return false;
    }
    let mut i: usize = 0;
    while i < authors.len()
        invariant
            i <= authors.len(),
            forall|j: int| 0 <= j < i ==> byte_len(#[trigger] authors.deep_view()[j]) <= MAX_AUTHOR_BYTES,
        decreases authors.len() - i,
    {
        assert(authors.deep_view()[i as int] == authors[i as int]@);
        if !text_fits(&authors[i], MAX_AUTHOR_BYTES) {
            return false;
        }
        i = i + 1;
    }
    true
}

} // verus!
