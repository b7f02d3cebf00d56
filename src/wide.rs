use vstd::prelude::*;

verus! {

/// The most UTF-16 code units that a document buffer is scanned for its
/// terminator, the terminator included.
pub const MAX_DOCUMENT_UNITS: usize = 1048576;

/// The text that the UTF-16 code units `units` decode to, each ill-formed
/// unit replaced by U+FFFD.
pub uninterp spec fn utf16_lossy_of(units: Seq<u16>) -> Seq<char>;

/// Relies on String::from_utf16_lossy: the text that `units` encode, with
/// U+FFFD in place of each ill-formed sequence; no units give no text.
#[verifier::external_body]
fn utf16_to_string(units: &[u16]) -> (r: String)
    ensures
        r@ == utf16_lossy_of(units@),
        units@.len() == 0 ==> r@.len() == 0,
{
    String::from_utf16_lossy(units)
}

/// A document buffer held no terminator within the scanned bound.
#[derive(Debug, Clone, Copy, PartialEq, Eq, Structural)]
pub enum DecodeError {
    Unterminated,
}

/// `units[i]` is the first zero unit, and lies within the scanned bound.
pub open spec fn is_terminator(units: Seq<u16>, i: int) -> bool {
    &&& 0 <= i < units.len()
    &&& i < MAX_DOCUMENT_UNITS
    &&& units[i] == 0
    &&& forall|j: int| 0 <= j < i ==> units[j] != 0
}

/// The text of a null-terminated wide-character buffer: the units before
/// the first zero, decoded; `None` when no zero lies within the bound.
pub open spec fn wide_text(units: Seq<u16>) -> Option<Seq<char>> {
    if exists|i: int| is_terminator(units, i) {
        let i = choose|i: int| is_terminator(units, i);
        Some(utf16_lossy_of(units.take(i)))
    } else {
        None
    }
}

proof fn lemma_terminator_unique(units: Seq<u16>, i: int, k: int)
    requires
        is_terminator(units, i),
        is_terminator(units, k),
    ensures
        i == k,
{
    if i < k {
        assert(units[i] != 0);
    } else if k < i {
        assert(units[k] != 0);
    }
}

/// The position of the first zero unit of `units`, scanning no further than
/// the bound.
pub fn terminator_position(units: &[u16]) -> (r: Option<usize>)
    ensures
        match r {
            Some(i) => is_terminator(units@, i as int),
            None => forall|i: int| !is_terminator(units@, i),
        },
{
    let mut i: usize = 0;
    while i < units.len() && i < MAX_DOCUMENT_UNITS
        invariant
            0 <= i <= units@.len(),
            i <= MAX_DOCUMENT_UNITS,
            forall|j: int| 0 <= j < i ==> units@[j] != 0,
        decreases units@.len() - i,
    {
        if units[i] == 0 {
            return Some(i);
        }
        i = i + 1;
    }
    proof {
        assert forall|k: int| !is_terminator(units@, k) by {
            if is_terminator(units@, k) {
                assert(units@[k] != 0);
            }
        }
    }
    None
}

/// Decodes a null-terminated wide-character buffer into a string; fails
/// when no terminator lies within the bound.
pub fn decode_wide(units: &[u16]) -> (r: Result<String, DecodeError>)
    ensures
        match r {
            Ok(s) => wide_text(units@) == Some(s@),
            Err(_) => wide_text(units@) is None,
        },
{
    match terminator_position(units) {
        None => Err(DecodeError::Unterminated),
        Some(len) => {
            let text = utf16_to_string(&units[0..len]);
            proof {
                let k = choose|k: int| is_terminator(units@, k);
                lemma_terminator_unique(units@, len as int, k);
                assert(units@.subrange(0, len as int) =~= units@.take(len as int));
            }
            Ok(text)
        },
    }
}

} // verus!
