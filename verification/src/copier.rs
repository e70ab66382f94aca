//! The bulk copier: moving every entry the tool left in the scratch
//! workspace to the resolved destination, preserving each entry's
//! position relative to the workspace root.
//!
//! The enumeration of the workspace and the per-entry transfers are I/O
//! and live in the unverified shell; this module fixes, for any list of
//! entries the enumeration found, which remote path each entry goes to
//! and how per-entry failures decide the copy as a whole.
use vstd::prelude::*;

verus! {

/// Remote path of one workspace entry: the resolved relative path with
/// the entry's root-relative name appended, separated by a slash unless
/// the base is empty — the destination root — or already ends in one.
pub open spec fn joined_path(base: Seq<char>, entry: Seq<char>) -> Seq<char> {
    if base.len() == 0 {
        entry
    } else if base.last() == '/' {
        base + entry
    } else {
        base + seq!['/'] + entry
    }
}

/// Composes the remote path of one workspace entry.
pub fn compose_remote_path(base: &str, entry: &str) -> (r: String)
    ensures
        r@ == joined_path(base@, entry@),
{
    let n = base.unicode_len();
    if n == 0 {
        entry.to_owned()
    } else if base.get_char(n - 1) == '/' {
        let mut s = base.to_owned();
        s.append(entry);
        s
    } else {
        let mut s = base.to_owned();
        s.append("/");
        s.append(entry);
        proof {
            reveal_strlit("/");
            assert("/"@ =~= seq!['/']);
            assert(s@ =~= base@ + seq!['/'] + entry@);
        }
        s
    }
}

/// Pairs every enumerated workspace entry with the remote path it is
/// copied to. Zero entries yield an empty transfer, not an error; the
/// caller need not know in advance how many files the tool produced.
pub fn copy_targets(entries: &Vec<String>, base: &str) -> (r: Vec<(String, String)>)
    ensures
        r@.len() == entries@.len(),
        forall|i: int|
            0 <= i < entries@.len() ==> r@[i].0 == entries@[i] && r@[i].1@ == joined_path(
                base@,
                entries@[i]@,
            ),
{
    let mut r: Vec<(String, String)> = Vec::new();
    let mut i: usize = 0;
    while i < entries.len()
        invariant
            i <= entries@.len(),
            r@.len() == i,
            forall|k: int|
                0 <= k < i ==> r@[k].0 == entries@[k] && r@[k].1@ == joined_path(
                    base@,
                    entries@[k]@,
                ),
        decreases entries@.len() - i,
    {
        let remote = compose_remote_path(base, entries[i].as_str());
        r.push((entries[i].clone(), remote));
        i += 1;
    }
    r
}

/// Decides the copy as a whole from the per-entry transfer results: the
/// copy succeeds exactly when every entry did, and otherwise aborts with
/// the first entry's failure — no failure is silently skipped.
pub fn copy_verdict(results: &Vec<Result<(), String>>) -> (r: Result<(), String>)
    ensures
        r is Ok <==> (forall|i: int| 0 <= i < results@.len() ==> results@[i] is Ok),
        r matches Err(m) ==> exists|i: int|
            0 <= i < results@.len() && ((#[trigger] results@[i]) matches Err(m0) && m0@ == m@) && (
            forall|k: int| 0 <= k < i ==> results@[k] is Ok),
{
    let mut i: usize = 0;
    while i < results.len()
        invariant
            i <= results@.len(),
            forall|k: int| 0 <= k < i ==> results@[k] is Ok,
        decreases results@.len() - i,
    {
        match &results[i] {
            Ok(()) => {},
            Err(m) => {
                return Err(m.clone());
            },
        }
        i += 1;
    }
    Ok(())
}

} // verus!
