//! Finding a process or a module by name in a ToolHelp snapshot. The caller
//! walks the snapshot and hands over each entry as its raw, NUL-padded name
//! buffer and the value the entry carries (a process id or a module base).
use std::string::FromUtf8Error;
use vstd::prelude::*;
use vstd::string::StringExecFns;
use vstd::utf8::{decode_utf8, valid_utf8};
use crate::cstr::{c_str, until_nul};

verus! {

/// One entry of a snapshot.
pub struct SnapshotEntry {
    /// The entry's fixed-size name buffer, NUL-padded.
    pub name: Vec<u8>,
    /// What the entry stands for: a process id or a module base address.
    pub value: u64,
}

#[verifier::external_type_specification]
#[verifier::external_body]
pub struct ExFromUtf8Error(FromUtf8Error);

/// Why a scan stopped without an answer.
#[derive(Debug)]
pub enum ScanError {
    /// An entry's name, up to its first NUL byte, is not valid UTF-8; the
    /// error is the one `String::from_utf8` gave for those bytes.
    InvalidName(FromUtf8Error),
}

/// What a scan comes to, its error's payload aside.
#[derive(Clone, Copy, PartialEq, Eq, Structural, Debug)]
pub enum ScanOutcome {
    /// The value of the entry that matched.
    Found(u64),
    /// Every name was valid and none matched.
    NotFound,
    /// A name that is not valid UTF-8 came before any match.
    InvalidName,
}

/// The outcome that the result of a scan stands for.
pub open spec fn outcome_of(r: Result<Option<u64>, ScanError>) -> ScanOutcome {
    match r {
        Ok(Some(v)) => ScanOutcome::Found(v),
        Ok(None) => ScanOutcome::NotFound,
        Err(_) => ScanOutcome::InvalidName,
    }
}

/// How one entry's name compares with the name looked for.
#[derive(Clone, Copy, PartialEq, Eq, Structural, Debug)]
pub enum EntryVerdict {
    /// The name is valid UTF-8 and is the name looked for.
    Match,
    /// The name is valid UTF-8 and is another name.
    Other,
    /// The name is not valid UTF-8.
    InvalidName,
}

/// The verdict on the name buffer `raw` when looking for `target`.
pub open spec fn verdict(raw: Seq<u8>, target: Seq<char>) -> EntryVerdict {
    if !valid_utf8(c_str(raw)) {
        EntryVerdict::InvalidName
    } else if decode_utf8(c_str(raw)) == target {
        EntryVerdict::Match
    } else {
        EntryVerdict::Other
    }
}

/// The outcome of scanning `entries` in order for `target`: the value of the
/// first matching entry, an error at the first invalid name met before any
/// match, or nothing when every name is valid and none matches.
pub open spec fn scan(entries: Seq<SnapshotEntry>, target: Seq<char>) -> ScanOutcome
    decreases entries.len(),
{
    if entries.len() == 0 {
        ScanOutcome::NotFound
    } else {
        match verdict(entries[0].name@, target) {
            EntryVerdict::InvalidName => ScanOutcome::InvalidName,
            EntryVerdict::Match => ScanOutcome::Found(entries[0].value),
            EntryVerdict::Other => scan(entries.drop_first(), target),
        }
    }
}

/// Decodes `bytes` as UTF-8 with `String::from_utf8`.
/// Trusted: the result is a string exactly when `bytes` is valid UTF-8, and
/// then it holds the characters that `bytes` encodes. Of the error, which
/// std fills with the bytes and the position of the first invalid sequence,
/// nothing is stated.
#[verifier::external_body]
fn string_from_utf8(bytes: Vec<u8>) -> (r: Result<String, FromUtf8Error>)
    ensures
        r is Ok <==> valid_utf8(bytes@),
        r matches Ok(s) ==> s@ == decode_utf8(bytes@),
{
    String::from_utf8(bytes)
}

/// Compares the name in the buffer `raw` (up to its first NUL byte) with
/// `target`: `Ok(true)` on a match, `Ok(false)` on another valid name, and
/// the decoding error when the name is not valid UTF-8.
pub fn classify_entry(raw: &[u8], target: &String) -> (r: Result<bool, FromUtf8Error>)
    ensures
        match r {
            Ok(true) => verdict(raw@, target@) == EntryVerdict::Match,
            Ok(false) => verdict(raw@, target@) == EntryVerdict::Other,
            Err(_) => verdict(raw@, target@) == EntryVerdict::InvalidName,
        },
        r is Ok <==> valid_utf8(c_str(raw@)),
        r matches Ok(m) ==> (m <==> decode_utf8(c_str(raw@)) == target@),
{
    let name = until_nul(raw);
    match string_from_utf8(name) {
        Err(e) => Err(e),
        Ok(decoded) => Ok(decoded == *target),
    }
}

/// The name in the buffer `raw`, up to its first NUL byte, is valid UTF-8
/// and reads exactly `target`.
pub open spec fn names_equal(raw: Seq<u8>, target: Seq<char>) -> bool {
    valid_utf8(c_str(raw)) && decode_utf8(c_str(raw)) == target
}

/// Every entry before index `i` has a valid name other than `target`.
pub open spec fn all_other_names(entries: Seq<SnapshotEntry>, target: Seq<char>, i: int) -> bool {
    forall|j: int|
        0 <= j < i ==> valid_utf8(c_str(#[trigger] entries[j].name@)) && decode_utf8(
            c_str(entries[j].name@),
        ) != target
}

/// An entry's verdict is decided by the decoded name alone: it is a match
/// exactly when the name is valid UTF-8 and equals the name looked for, so
/// two different names never both match, even at the same length.
pub proof fn lemma_verdict_is_name_equality(raw: Seq<u8>, target: Seq<char>)
    ensures
        verdict(raw, target) == EntryVerdict::Match <==> (valid_utf8(c_str(raw)) && decode_utf8(
            c_str(raw),
        ) == target),
        verdict(raw, target) == EntryVerdict::Other <==> (valid_utf8(c_str(raw)) && decode_utf8(
            c_str(raw),
        ) != target),
        verdict(raw, target) == EntryVerdict::InvalidName <==> !valid_utf8(c_str(raw)),
        forall|other: Seq<u8>|
            verdict(raw, target) == EntryVerdict::Match && #[trigger] verdict(other, target)
                == EntryVerdict::Match ==> decode_utf8(c_str(other)) == decode_utf8(c_str(raw)),
{
}

/// Looks for the first entry named `target`, stopping at the first entry
/// whose name is not valid UTF-8.
pub fn find_entry(entries: &Vec<SnapshotEntry>, target: &str) -> (r: Result<Option<u64>, ScanError>)
    ensures
        outcome_of(r) == scan(entries@, target@),
        r matches Ok(Some(v)) ==> exists|i: int|
            0 <= i < entries@.len() && #[trigger] entries@[i].value == v && names_equal(
                entries@[i].name@,
                target@,
            ) && all_other_names(entries@, target@, i),
        r matches Ok(None) ==> all_other_names(entries@, target@, entries@.len() as int),
        r is Err ==> exists|i: int|
            0 <= i < entries@.len() && !valid_utf8(c_str(#[trigger] entries@[i].name@))
                && all_other_names(entries@, target@, i),
{
    let wanted = String::from_str(target);
    let mut i: usize = 0;
    assert(entries@.skip(0) =~= entries@);
    while i < entries.len()
        invariant
            i <= entries@.len(),
            wanted@ == target@,
            scan(entries@, target@) == scan(entries@.skip(i as int), target@),
            all_other_names(entries@, target@, i as int),
        decreases entries@.len() - i,
    {
        let ghost rest = entries@.skip(i as int);
        assert(rest[0] == entries@[i as int]);
        match classify_entry(entries[i].name.as_slice(), &wanted) {
            Err(e) => {
                return Err(ScanError::InvalidName(e));
            },
            Ok(true) => {
                return Ok(Some(entries[i].value));
            },
            Ok(false) => {},
        }
        assert(rest.drop_first() =~= entries@.skip(i + 1));
        i = i + 1;
    }
    assert(entries@.skip(i as int) =~= Seq::<SnapshotEntry>::empty());
    Ok(None)
}

/// The scan is decided by the first entry whose name is not a valid,
/// non-matching name: its value when that name matches, an error when it is
/// not valid UTF-8.
pub proof fn lemma_scan_decided_at(entries: Seq<SnapshotEntry>, target: Seq<char>, i: int)
    requires
        0 <= i < entries.len(),
        forall|j: int| 0 <= j < i ==> verdict(#[trigger] entries[j].name@, target) == EntryVerdict::Other,
        verdict(entries[i].name@, target) != EntryVerdict::Other,
    ensures
        scan(entries, target) == (if verdict(entries[i].name@, target) == EntryVerdict::Match {
            ScanOutcome::Found(entries[i].value)
        } else {
            ScanOutcome::InvalidName
        }),
    decreases i,
{
    if i > 0 {
        let rest = entries.drop_first();
        assert(verdict(entries[0].name@, target) == EntryVerdict::Other);
        assert forall|j: int| 0 <= j < i - 1 implies verdict(#[trigger] rest[j].name@, target)
            == EntryVerdict::Other by {
            assert(rest[j] == entries[j + 1]);
        }
        assert(rest[i - 1] == entries[i]);
        lemma_scan_decided_at(rest, target, i - 1);
    }
}

/// When every name is valid UTF-8 and none matches, the scan finds nothing.
pub proof fn lemma_scan_no_match(entries: Seq<SnapshotEntry>, target: Seq<char>)
    requires
        forall|j: int| 0 <= j < entries.len() ==> verdict(#[trigger] entries[j].name@, target)
            == EntryVerdict::Other,
    ensures
        scan(entries, target) == ScanOutcome::NotFound,
    decreases entries.len(),
{
    if entries.len() > 0 {
        let rest = entries.drop_first();
        assert(verdict(entries[0].name@, target) == EntryVerdict::Other);
        assert forall|j: int| 0 <= j < rest.len() implies verdict(#[trigger] rest[j].name@, target)
            == EntryVerdict::Other by {
            assert(rest[j] == entries[j + 1]);
        }
        lemma_scan_no_match(rest, target);
    }
}

} // verus!
