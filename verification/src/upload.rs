//! The upload validator: the checks an incoming file passes before it is
//! registered, and the state machine a single upload walks through —
//! `Received → TypeChecked → SizeChecked → PersistedToDisk →
//! StructurallyValidated → Cataloged`, with `Rejected` terminal and
//! reachable from every step.

use vstd::prelude::*;
use vstd::string::StringExecFns;
use vstd::string::StrSliceExecFns;
use crate::values::{dec_str, u64_to_string};

verus! {

/// The smallest upload accepted, in bytes.
pub const MIN_FILE_SIZE: usize = 1024;

/// The largest upload accepted, in bytes.
pub const MAX_FILE_SIZE: usize = 1024 * 1024 * 100;

/// Whether a byte length lies in the accepted range.
pub open spec fn size_ok(n: int) -> bool {
    MIN_FILE_SIZE <= n <= MAX_FILE_SIZE
}

/// Whether `p` is a prefix of `s`.
pub open spec fn has_prefix(s: Seq<char>, p: Seq<char>) -> bool {
    p.len() <= s.len() && s.subrange(0, p.len() as int) == p
}

/// Whether `s` starts with `p`.
pub fn str_has_prefix(s: &str, p: &str) -> (r: bool)
    ensures
        r == has_prefix(s@, p@),
{
    let pn = p.unicode_len();
    let sn = s.unicode_len();
    if sn < pn {
        return false;
    }
    let mut i: usize = 0;
    while i < pn
        invariant
            i <= pn,
            pn == p@.len(),
            sn == s@.len(),
            pn <= sn,
            forall|j: int| 0 <= j < i ==> s@[j] == p@[j],
        decreases pn - i,
    {
        if s.get_char(i) != p.get_char(i) {
            proof {
                assert(s@.subrange(0, p@.len() as int)[i as int] == s@[i as int]);
            }
            return false;
        }
        i = i + 1;
    }
    proof {
        assert(s@.subrange(0, p@.len() as int) =~= p@);
    }
    true
}

/// Whether a declared content type is one of the accepted set: the
/// embedded-database type or the generic octet stream.
pub open spec fn valid_content_type(ct: Seq<char>) -> bool {
    has_prefix(ct, "application/x-sqlite3"@) || has_prefix(ct, "application/octet-stream"@)
}

/// Checks a declared content type against the accepted set.
pub fn acceptable_content_type(ct: &str) -> (r: bool)
    ensures
        r == valid_content_type(ct@),
{
    if str_has_prefix(ct, "application/x-sqlite3") {
        true
    } else {
        str_has_prefix(ct, "application/octet-stream")
    }
}

/// The unique name an upload is stored under: the upload timestamp, a dash,
/// and the original filename.
pub open spec fn spec_storage_filename(now: i64, filename: Seq<char>) -> Seq<char> {
    dec_str(now as nat) + "-"@ + filename
}

/// Builds the timestamp-prefixed unique filename for one upload.
pub fn storage_filename(now: i64, filename: &str) -> (r: String)
    requires
        0 <= now,
    ensures
        r@ == spec_storage_filename(now, filename@),
{
    let mut r = u64_to_string(now as u64);
    r.append("-");
    r.append(filename);
    r
}

/// The steps one upload walks through.
#[derive(Debug, Clone, Copy, PartialEq, Eq, Structural)]
pub enum UploadState {
    /// The multipart field arrived.
    Received,
    /// The declared content type is in the accepted set.
    TypeChecked,
    /// The byte length lies in the accepted range.
    SizeChecked,
    /// The bytes are written under the unique storage path.
    PersistedToDisk,
    /// The persisted file opened and probed as a real database.
    StructurallyValidated,
    /// The metadata record is persisted in the catalog.
    Cataloged,
    /// Terminal: the upload was turned away.
    Rejected,
}

/// The outcome of the step an upload is waiting on.
#[derive(Debug, Clone, Copy, PartialEq, Eq, Structural)]
pub enum UploadEvent {
    TypeOk,
    TypeInvalid,
    SizeOk,
    SizeOut,
    Written,
    WriteFailed,
    ProbeOk,
    ProbeFailed,
    Saved,
    SaveFailed,
}

/// The transition relation of the upload state machine: each step advances
/// only on its own success event; every failure event, and any event a step
/// is not waiting on, rejects; the two terminal states absorb.
pub open spec fn spec_upload_step(s: UploadState, e: UploadEvent) -> UploadState {
    match s {
        UploadState::Received => match e {
            UploadEvent::TypeOk => UploadState::TypeChecked,
            _ => UploadState::Rejected,
        },
        UploadState::TypeChecked => match e {
            UploadEvent::SizeOk => UploadState::SizeChecked,
            _ => UploadState::Rejected,
        },
        UploadState::SizeChecked => match e {
            UploadEvent::Written => UploadState::PersistedToDisk,
            _ => UploadState::Rejected,
        },
        UploadState::PersistedToDisk => match e {
            UploadEvent::ProbeOk => UploadState::StructurallyValidated,
            _ => UploadState::Rejected,
        },
        UploadState::StructurallyValidated => match e {
            UploadEvent::Saved => UploadState::Cataloged,
            _ => UploadState::Rejected,
        },
        UploadState::Cataloged => UploadState::Cataloged,
        UploadState::Rejected => UploadState::Rejected,
    }
}

/// Advances the upload state machine by one observed outcome.
pub fn upload_step(s: UploadState, e: UploadEvent) -> (r: UploadState)
    ensures
        r == spec_upload_step(s, e),
{
    match s {
        UploadState::Received => match e {
            UploadEvent::TypeOk => UploadState::TypeChecked,
            _ => UploadState::Rejected,
        },
        UploadState::TypeChecked => match e {
            UploadEvent::SizeOk => UploadState::SizeChecked,
            _ => UploadState::Rejected,
        },
        UploadState::SizeChecked => match e {
            UploadEvent::Written => UploadState::PersistedToDisk,
            _ => UploadState::Rejected,
        },
        UploadState::PersistedToDisk => match e {
            UploadEvent::ProbeOk => UploadState::StructurallyValidated,
            _ => UploadState::Rejected,
        },
        UploadState::StructurallyValidated => match e {
            UploadEvent::Saved => UploadState::Cataloged,
            _ => UploadState::Rejected,
        },
        UploadState::Cataloged => UploadState::Cataloged,
        UploadState::Rejected => UploadState::Rejected,
    }
}

/// Law: the machine reaches `Cataloged` only by the final save succeeding
/// after structural validation, and a rejected upload stays rejected.
pub proof fn lemma_upload_machine(s: UploadState, e: UploadEvent)
    ensures
        spec_upload_step(s, e) == UploadState::Cataloged ==> (s == UploadState::Cataloged || (
        s == UploadState::StructurallyValidated && e == UploadEvent::Saved)),
        spec_upload_step(UploadState::Rejected, e) == UploadState::Rejected,
{
}

} // verus!
