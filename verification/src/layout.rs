//! The keyboard-layout field: the entry of the comma-separated layout list
//! that the active group selects, in upper case.

use vstd::prelude::*;
use vstd::string::*;
use vstd::utf8::{decode_utf8, valid_utf8};
use crate::text::viewed;

verus! {

/// Why a layout list and a group give no layout.
#[derive(Clone, Copy, Debug, PartialEq, Eq, Structural)]
pub enum LayoutError {
    /// The bytes of the layout list are not UTF-8 text.
    NotText,
    /// The list has no entry at the group's index.
    GroupOutOfRange,
}

/// The position of the first comma of `s` at or after `from`, or the length
/// of `s` where there is none.
pub open spec fn comma_at(s: Seq<char>, from: int) -> int
    decreases s.len() - from,
{
    if from < 0 || from >= s.len() {
        s.len() as int
    } else if s[from] == ',' {
        from
    } else {
        comma_at(s, from + 1)
    }
}

/// Where entry `k` of the list begins: entry 0 at the start, each later one
/// behind the comma that ends the entry before it. Past the last entry the
/// value lies beyond the end of `s`.
pub open spec fn field_start(s: Seq<char>, k: nat) -> int
    decreases k,
{
    if k == 0 {
        0
    } else {
        comma_at(s, field_start(s, (k - 1) as nat)) + 1
    }
}

/// Whether the list has an entry `k`. A list without a comma has the one
/// entry 0, which may be empty.
pub open spec fn has_field(s: Seq<char>, k: nat) -> bool {
    field_start(s, k) <= s.len()
}

/// Entry `k` of the list: the characters from its start up to the next
/// comma or the end.
pub open spec fn field(s: Seq<char>, k: nat) -> Seq<char> {
    s.subrange(field_start(s, k), comma_at(s, field_start(s, k)))
}

/// The number of commas among the first `upto` characters of `s`.
pub open spec fn commas_before(s: Seq<char>, upto: int) -> nat
    decreases upto,
{
    if upto <= 0 {
        0
    } else if upto <= s.len() && s[upto - 1] == ',' {
        commas_before(s, upto - 1) + 1
    } else {
        commas_before(s, upto - 1)
    }
}

/// The number of entries of the list: one more than it has commas.
pub open spec fn field_count(s: Seq<char>) -> nat {
    commas_before(s, s.len() as int) + 1
}

/// The upper-case form of a text, as `str::to_uppercase` of std gives it.
pub uninterp spec fn uppercase_of(s: Seq<char>) -> Seq<char>;

/// What selecting group `group` from the list `names` gives.
pub open spec fn selected_layout(names: Seq<char>, group: nat) -> Result<Seq<char>, LayoutError> {
    if has_field(names, group) {
        Ok(uppercase_of(field(names, group)))
    } else {
        Err(LayoutError::GroupOutOfRange)
    }
}

/// What selecting group `group` from the undecoded list `bytes` gives.
pub open spec fn active_layout_of(bytes: Seq<u8>, group: nat) -> Result<Seq<char>, LayoutError> {
    if valid_utf8(bytes) {
        selected_layout(decode_utf8(bytes), group)
    } else {
        Err(LayoutError::NotText)
    }
}

/// `str::to_uppercase` of std: the upper-case equivalent of the text as a
/// new string. The result depends on the text alone; the contract only
/// gives it its name.
#[verifier::external_body]
pub(crate) fn to_upper(s: &str) -> (r: String)
    ensures
        r@ == uppercase_of(s@),
{
    s.to_uppercase()
}

/// `core::str::from_utf8` of std: the same bytes as text where they are
/// valid UTF-8, nothing where they are not.
#[verifier::external_body]
pub(crate) fn utf8_text(bytes: &[u8]) -> (r: Option<&str>)
    ensures
        r is Some <==> valid_utf8(bytes@),
        r is Some ==> r->0.spec_bytes() == bytes@,
{
    core::str::from_utf8(bytes).ok()
}

/// The first comma at or after `from` lies between `from` and the end.
pub proof fn comma_at_bounds(s: Seq<char>, from: int)
    requires
        0 <= from <= s.len(),
    ensures
        from <= comma_at(s, from) <= s.len(),
        forall|i: int| from <= i < comma_at(s, from) ==> s[i] != ',',
        comma_at(s, from) < s.len() ==> s[comma_at(s, from)] == ',',
    decreases s.len() - from,
{
    if from < s.len() && s[from] != ',' {
        comma_at_bounds(s, from + 1);
    }
}

/// Behind a missing entry every later entry is missing too.
pub proof fn missing_field_stays_missing(s: Seq<char>, k: nat, later: nat)
    requires
        !has_field(s, k),
        k <= later,
    ensures
        !has_field(s, later),
    decreases later,
{
    if k < later {
        missing_field_stays_missing(s, k, (later - 1) as nat);
    }
}

/// No comma stands between a place and the first comma behind it.
pub proof fn commas_before_next_comma(s: Seq<char>, from: int)
    requires
        0 <= from <= s.len(),
    ensures
        commas_before(s, comma_at(s, from)) == commas_before(s, from),
    decreases s.len() - from,
{
    if from < s.len() && s[from] != ',' {
        commas_before_next_comma(s, from + 1);
    }
}

/// A longer beginning holds no fewer commas.
pub proof fn commas_before_grows(s: Seq<char>, a: int, b: int)
    requires
        a <= b,
    ensures
        commas_before(s, a) <= commas_before(s, b),
    decreases b - a,
{
    if a < b {
        commas_before_grows(s, a, b - 1);
    }
}

/// Entry `k` begins behind exactly `k` commas.
pub proof fn field_start_counts_commas(s: Seq<char>, k: nat)
    requires
        has_field(s, k),
    ensures
        0 <= field_start(s, k),
        commas_before(s, field_start(s, k)) == k,
    decreases k,
{
    if k > 0 {
        let before = (k - 1) as nat;
        if !has_field(s, before) {
            missing_field_stays_missing(s, before, k);
        }
        field_start_counts_commas(s, before);
        comma_at_bounds(s, field_start(s, before));
        commas_before_next_comma(s, field_start(s, before));
    }
}

/// The list has an entry at an index exactly where the index is below the
/// number of entries: no index beyond the list selects anything.
pub proof fn has_field_below_count(s: Seq<char>, k: nat)
    ensures
        has_field(s, k) <==> k < field_count(s),
    decreases k,
{
    if has_field(s, k) {
        field_start_counts_commas(s, k);
        commas_before_grows(s, field_start(s, k), s.len() as int);
    } else if k > 0 {
        let before = (k - 1) as nat;
        has_field_below_count(s, before);
        if has_field(s, before) {
            field_start_counts_commas(s, before);
            comma_at_bounds(s, field_start(s, before));
            commas_before_next_comma(s, field_start(s, before));
        }
    }
}

/// An entry holds no comma, and a comma or the end of the list follows it.
pub proof fn field_is_bounded_by_commas(s: Seq<char>, k: nat)
    requires
        has_field(s, k),
    ensures
        forall|i: int| 0 <= i < field(s, k).len() ==> field(s, k)[i] != ',',
        0 <= field_start(s, k) <= comma_at(s, field_start(s, k)) <= s.len(),
        comma_at(s, field_start(s, k)) < s.len() ==> s[comma_at(s, field_start(s, k))] == ',',
        k > 0 ==> s[field_start(s, k) - 1] == ',',
{
    field_start_counts_commas(s, k);
    comma_at_bounds(s, field_start(s, k));
    if k > 0 {
        let before = (k - 1) as nat;
        if !has_field(s, before) {
            missing_field_stays_missing(s, before, k);
        }
        field_start_counts_commas(s, before);
        comma_at_bounds(s, field_start(s, before));
    }
}

/// Finds the first comma at or after `from` in a text of `len` characters.
fn find_comma(names: &str, from: usize, len: usize) -> (r: usize)
    requires
        len == names@.len(),
        from <= len,
    ensures
        r == comma_at(names@, from as int),
        from <= r <= len,
{
    let mut i: usize = from;
    while i < len
        invariant
            len == names@.len(),
            from <= i <= len,
            comma_at(names@, from as int) == comma_at(names@, i as int),
        decreases len - i,
    {
        if names.get_char(i) == ',' {
            return i;
        }
        i = i + 1;
    }
    i
}

/// Entry `group` of the comma-separated list `names`, in upper case.
///
/// Fails where the list has no such entry: no other entry stands in for it.
pub fn select_layout(names: &str, group: u8) -> (r: Result<String, LayoutError>)
    ensures
        viewed(r) == selected_layout(names@, group as nat),
        r is Ok <==> has_field(names@, group as nat),
{
    let len: usize = names.unicode_len();
    let mut start: usize = 0;
    let mut k: u8 = 0;
    while k < group
        invariant
            len == names@.len(),
            k <= group,
            start <= len,
            start == field_start(names@, k as nat),
        decreases group - k,
    {
        let end: usize = find_comma(names, start, len);
        if end >= len {
            proof {
                assert(!has_field(names@, (k + 1) as nat));
                missing_field_stays_missing(names@, (k + 1) as nat, group as nat);
            }
            return Err(LayoutError::GroupOutOfRange);
        }
        start = end + 1;
        k = k + 1;
    }
    let end: usize = find_comma(names, start, len);
    let entry: &str = names.substring_char(start, end);
    Ok(to_upper(entry))
}

/// The active layout from the list as the keyboard extension hands it out:
/// the bytes are decoded as UTF-8, split at the commas, the entry at the
/// group's index is taken and put in upper case.
pub fn active_layout(names: &[u8], group: u8) -> (r: Result<String, LayoutError>)
    ensures
        viewed(r) == active_layout_of(names@, group as nat),
        r is Ok <==> valid_utf8(names@) && has_field(decode_utf8(names@), group as nat),
{
    match utf8_text(names) {
        None => Err(LayoutError::NotText),
        Some(text) => {
            proof {
                vstd::utf8::encode_utf8_decode_utf8(text@);
            }
            select_layout(text, group)
        },
    }
}

} // verus!
