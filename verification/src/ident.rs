//! Device identity: trimming an advertised name to its catalog label and
//! resolving that label to a cube number.
//!
//! A device is eligible only if its advertised name contains the substring
//! "toio"; its identity is the text after the last `-` of the name, or the
//! whole name when it has none.

use vstd::prelude::*;
use crate::catalog::{catalog_entry, catalog_label, CATALOG_LEN};

verus! {

/// The four characters of "toio" stand at position `i` of `s`.
pub open spec fn toio_at(s: Seq<char>, i: int) -> bool {
    &&& 0 <= i
    &&& i + 4 <= s.len()
    &&& s[i] == 't'
    &&& s[i + 1] == 'o'
    &&& s[i + 2] == 'i'
    &&& s[i + 3] == 'o'
}

/// `s` contains the substring "toio".
pub open spec fn spec_contains_toio(s: Seq<char>) -> bool {
    exists|i: int| toio_at(s, i)
}

/// Index of the last `-` in `s`, or `-1` when `s` has none.
pub open spec fn last_dash(s: Seq<char>) -> int
    decreases s.len(),
{
    if s.len() == 0 {
        -1
    } else if s[s.len() - 1] == '-' {
        s.len() - 1
    } else {
        last_dash(s.drop_last())
    }
}

/// The identity a name trims to: everything after its last `-`, or the
/// whole name when it has no `-`.
pub open spec fn trailing_label(s: Seq<char>) -> Seq<char> {
    s.subrange(last_dash(s) + 1, s.len() as int)
}

/// `last_dash` names the one position that is a `-` with none after it.
proof fn lemma_last_dash_unique(s: Seq<char>, k: int)
    requires
        0 <= k < s.len(),
        s[k] == '-',
        forall|j: int| k < j < s.len() ==> s[j] != '-',
    ensures
        last_dash(s) == k,
    decreases s.len(),
{
    if s[s.len() - 1] == '-' {
        assert(k == s.len() - 1);
    } else {
        assert(k < s.len() - 1);
        assert(forall|j: int| 0 <= j < s.len() - 1 ==> s[j] == s.drop_last()[j]);
        lemma_last_dash_unique(s.drop_last(), k);
    }
}

proof fn lemma_no_dash(s: Seq<char>)
    requires
        forall|j: int| 0 <= j < s.len() ==> s[j] != '-',
    ensures
        last_dash(s) == -1,
    decreases s.len(),
{
    if s.len() > 0 {
        assert(forall|j: int| 0 <= j < s.len() - 1 ==> s[j] == s.drop_last()[j]);
        lemma_no_dash(s.drop_last());
    }
}

/// The identity an advertised name yields: its trailing label when the
/// name contains "toio", nothing otherwise.
pub open spec fn identity_of(name: Seq<char>) -> Option<Seq<char>> {
    if spec_contains_toio(name) {
        Some(trailing_label(name))
    } else {
        None
    }
}

/// Whether `s` contains the substring "toio".
pub fn contains_toio(s: &str) -> (r: bool)
    ensures
        r == spec_contains_toio(s@),
{
    let len = s.unicode_len();
    if len < 4 {
        return false;
    }
    let mut i: usize = 0;
    while i <= len - 4
        invariant
            len == s@.len(),
            len >= 4,
            i <= len,
            forall|j: int| 0 <= j < i ==> !toio_at(s@, j),
        decreases len - i,
    {
        if s.get_char(i) == 't' && s.get_char(i + 1) == 'o' && s.get_char(i + 2) == 'i'
            && s.get_char(i + 3) == 'o' {
            proof {
                assert(toio_at(s@, i as int));
            }
            return true;
        }
        i += 1;
    }
    false
}

/// Compares two string slices by their characters.
pub fn str_eq(a: &str, b: &str) -> (r: bool)
    ensures
        r <==> a@ == b@,
{
    let alen = a.unicode_len();
    let blen = b.unicode_len();
    if alen != blen {
        return false;
    }
    let mut i: usize = 0;
    while i < alen
        invariant
            alen == a@.len(),
            alen == b@.len(),
            i <= alen,
            forall|j: int| 0 <= j < i ==> a@[j] == b@[j],
        decreases alen - i,
    {
        if a.get_char(i) != b.get_char(i) {
            return false;
        }
        i += 1;
    }
    proof {
        assert(a@ =~= b@);
    }
    true
}

/// Trims an advertised name to the device identity used for filtering.
/// A name not containing "toio" yields no identity at all, whatever its
/// label; an eligible name yields the text after its last `-`, or the
/// whole name when it has none.
pub fn derive_identity(name: &str) -> (r: Option<String>)
    ensures
        match r {
            Some(label) => spec_contains_toio(name@) && label@ == trailing_label(name@),
            None => !spec_contains_toio(name@),
        },
{
    if !contains_toio(name) {
        return None;
    }
    let len = name.unicode_len();
    let mut i: usize = len;
    while i > 0
        invariant
            len == name@.len(),
            i <= len,
            spec_contains_toio(name@),
            forall|j: int| i <= j < len ==> name@[j] != '-',
        decreases i,
    {
        if name.get_char(i - 1) == '-' {
            proof {
                lemma_last_dash_unique(name@, i - 1);
            }
            let label = name.substring_char(i, len);
            return Some(label.to_owned());
        }
        i -= 1;
    }
    proof {
        lemma_no_dash(name@);
        assert(trailing_label(name@) =~= name@);
    }
    Some(name.to_owned())
}

/// `i` is the first catalog entry whose label is `name`.
pub open spec fn is_catalog_index(name: Seq<char>, i: int) -> bool {
    &&& 0 <= i < CATALOG_LEN
    &&& catalog_label(i) == name
    &&& forall|j: int| 0 <= j < i ==> catalog_label(j) != name
}

/// No catalog entry carries the label `name`.
pub open spec fn no_catalog_index(name: Seq<char>) -> bool {
    forall|j: int| 0 <= j < CATALOG_LEN ==> catalog_label(j) != name
}

/// Looks a label up in the catalog: the first entry equal to `name`, or
/// nothing when no entry matches.
pub fn return_toio_id(name: &str) -> (r: Option<usize>)
    ensures
        match r {
            Some(i) => is_catalog_index(name@, i as int),
            None => no_catalog_index(name@),
        },
{
    let mut i: usize = 0;
    while i < CATALOG_LEN
        invariant
            i <= CATALOG_LEN,
            forall|j: int| 0 <= j < i ==> catalog_label(j) != name@,
        decreases CATALOG_LEN - i,
    {
        if str_eq(catalog_entry(i), name) {
            return Some(i);
        }
        i += 1;
    }
    None
}

/// Identity extraction round-trips: a name assembled as
/// `<prefix>-<label>`, where the label itself carries no `-`, trims back
/// to exactly that label.
pub proof fn lemma_identity_extraction(prefix: Seq<char>, label: Seq<char>)
    requires
        forall|j: int| 0 <= j < label.len() ==> label[j] != '-',
    ensures
        trailing_label(prefix + seq!['-'] + label) == label,
{
    let s = prefix + seq!['-'] + label;
    assert(s[prefix.len() as int] == '-');
    assert(forall|j: int| prefix.len() < j < s.len() ==> s[j] == label[j - prefix.len() - 1]);
    lemma_last_dash_unique(s, prefix.len() as int);
    assert(trailing_label(s) =~= label);
}

/// A name with no `-` at all trims to itself.
pub proof fn lemma_identity_whole_name(name: Seq<char>)
    requires
        forall|j: int| 0 <= j < name.len() ==> name[j] != '-',
    ensures
        trailing_label(name) == name,
{
    lemma_no_dash(name);
    assert(trailing_label(name) =~= name);
}

} // verus!
