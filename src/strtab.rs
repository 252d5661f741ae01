//! String tables and the pass that names sections and symbols from them.

use vstd::prelude::*;
use vstd::utf8::{decode_utf8, valid_utf8};

verus! {

/// An entry whose name is stored out of line, at an offset into a string table.
pub trait Rename {
    /// Offset of the entry's name in its string table.
    spec fn name_offset(&self) -> usize;

    /// The entry's current name.
    spec fn name_view(&self) -> Seq<char>;

    /// `other` agrees with `self` in everything but the name.
    spec fn same_but_name(&self, other: &Self) -> bool;

    /// Returns the offset of the entry's name in its string table.
    fn strndx(&self) -> (r: usize)
        ensures
            r == self.name_offset(),
    ;

    /// Sets the entry's name, leaving all else as it was.
    fn setname(&mut self, name: String)
        ensures
            final(self).name_view() == name@,
            final(self).name_offset() == old(self).name_offset(),
            old(self).same_but_name(final(self)),
    ;
}

/// Position of the first NUL byte of `tab` at or after `i`, if any.
pub open spec fn first_nul(tab: Seq<u8>, i: int) -> Option<int>
    decreases tab.len() - i,
{
    if i < 0 || i >= tab.len() {
        None
    } else if tab[i] == 0 {
        Some(i)
    } else {
        first_nul(tab, i + 1)
    }
}

/// The name at offset `off` of string table `tab`: the text of the bytes from
/// `off` up to the next NUL; "NULL" where that text is empty; "CORRUPTED"
/// where no NUL follows `off` or the bytes are not valid UTF-8.
pub open spec fn resolved_name(tab: Seq<u8>, off: int) -> Seq<char> {
    match first_nul(tab, off) {
        None => "CORRUPTED"@,
        Some(end) => {
            let bytes = tab.subrange(off, end);
            if !valid_utf8(bytes) {
                "CORRUPTED"@
            } else if bytes.len() == 0 {
                "NULL"@
            } else {
                decode_utf8(bytes)
            }
        },
    }
}

/// `after` is `before` with every entry named from string table `tab`; an
/// empty table leaves every entry as it was.
pub open spec fn renamed<R: Rename>(tab: Seq<u8>, before: Seq<R>, after: Seq<R>) -> bool {
    &&& after.len() == before.len()
    &&& tab.len() == 0 ==> after == before
    &&& tab.len() > 0 ==> forall|i: int|
        #![trigger after[i]]
        0 <= i < before.len() ==> {
            &&& before[i].same_but_name(&after[i])
            &&& after[i].name_offset() == before[i].name_offset()
            &&& after[i].name_view() == resolved_name(tab, before[i].name_offset() as int)
        }
}

/// Naming is idempotent: naming entries a second time from the same string
/// table gives each the name it already had.
pub proof fn lemma_resolve_idempotent<R: Rename>(tab: Seq<u8>, a: Seq<R>, b: Seq<R>, c: Seq<R>)
    requires
        renamed(tab, a, b),
        renamed(tab, b, c),
    ensures
        c.len() == b.len(),
        forall|i: int| 0 <= i < c.len() ==> #[trigger] c[i].name_view() == b[i].name_view(),
{
    if tab.len() > 0 {
        assert forall|i: int| 0 <= i < c.len() implies #[trigger] c[i].name_view() == b[i].name_view() by {
            assert(b[i].name_offset() == a[i].name_offset());
        }
    }
}

/// Naming from an empty string table changes no name.
pub proof fn lemma_empty_table_keeps_names<R: Rename>(tab: Seq<u8>, a: Seq<R>, b: Seq<R>)
    requires
        renamed(tab, a, b),
        tab.len() == 0,
    ensures
        forall|i: int| 0 <= i < b.len() ==> #[trigger] b[i].name_view() == a[i].name_view(),
{
}

/// With no NUL byte from position `i` to the end of `tab`, there is no first NUL.
proof fn lemma_no_nul(tab: Seq<u8>, i: int)
    requires
        0 <= i,
        forall|k: int| i <= k < tab.len() ==> tab[k] != 0,
    ensures
        first_nul(tab, i) is None,
    decreases tab.len() - i,
{
    if i < tab.len() {
        lemma_no_nul(tab, i + 1);
    }
}

/// A name whose bytes run from its offset to the end of the table without a
/// NUL terminator is "CORRUPTED".
pub proof fn lemma_unterminated_name(tab: Seq<u8>, off: int)
    requires
        0 <= off,
        forall|k: int| off <= k < tab.len() ==> tab[k] != 0,
    ensures
        resolved_name(tab, off) == "CORRUPTED"@,
{
    lemma_no_nul(tab, off);
}

/// Relies on std's `str::from_utf8`: it accepts exactly the valid UTF-8 byte
/// strings, and the text it returns is their decoding.
#[verifier::external_body]
fn utf8_text(b: &[u8]) -> (r: Option<String>)
    ensures
        match r {
            Some(s) => valid_utf8(b@) && s@ == decode_utf8(b@),
            None => !valid_utf8(b@),
        },
{
    match std::str::from_utf8(b) {
        Ok(s) => Some(s.to_string()),
        Err(_) => None,
    }
}

/// Reads the name at offset `off` of string table `strtab`.
pub fn read_name(strtab: &[u8], off: usize) -> (r: String)
    ensures
        r@ == resolved_name(strtab@, off as int),
{
    let len = strtab.len();
    let mut end = off;
    while end < len && strtab[end] != 0
        invariant
            off <= end,
            len == strtab@.len(),
            first_nul(strtab@, off as int) == first_nul(strtab@, end as int),
        decreases len - end,
    {
        end = end + 1;
    }
    if end >= len {
        return String::from_str("CORRUPTED");
    }
    let bytes = &strtab[off..end];
    match utf8_text(bytes) {
        None => String::from_str("CORRUPTED"),
        Some(text) => {
            if end == off {
                String::from_str("NULL")
            } else {
                text
            }
        },
    }
}

/// Names every entry of `objects` from string table `strtab`. An empty table
/// leaves the entries as they are: a file without a string table keeps its
/// names empty.
pub fn resolve_names<R: Rename>(strtab: &[u8], objects: &mut Vec<R>)
    ensures
        renamed(strtab@, old(objects)@, final(objects)@),
{
    if strtab.len() == 0 {
        return;
    }
    let n = objects.len();
    for i in 0..n
        invariant
            n == objects@.len(),
            old(objects)@.len() == n,
            strtab@.len() > 0,
            forall|k: int| i <= k < n ==> objects@[k] == old(objects)@[k],
            forall|k: int|
                #![trigger objects@[k]]
                0 <= k < i ==> {
                    &&& old(objects)@[k].same_but_name(&objects@[k])
                    &&& objects@[k].name_offset() == old(objects)@[k].name_offset()
                    &&& objects@[k].name_view() == resolved_name(
                        strtab@,
                        old(objects)@[k].name_offset() as int,
                    )
                },
    {
        let off = objects[i].strndx();
        let name = read_name(strtab, off);
        objects[i].setname(name);
    }
}

} // verus!
