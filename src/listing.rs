use vstd::prelude::*;
use crate::error::{status_of, AppError, STATUS_INTERNAL_ERROR};
use crate::model::{string_or, text_or, FileInfo, FileRecord};
use crate::object_id::encode_hex;
use crate::timestamp::{expiry_text, expiry_to_text, unknown_text};

verus! {

pub open spec fn listed_id(r: FileRecord) -> Seq<char> {
    match r.id {
        Some(id) => encode_hex(id.bytes@),
        None => unknown_text(),
    }
}

pub open spec fn listed_expiry(r: FileRecord) -> Seq<char> {
    match r.expire_at {
        Some(ms) => expiry_text(ms),
        None => unknown_text(),
    }
}

/// `info` is the listing entry of `r`.
pub open spec fn lists_as(info: FileInfo, r: FileRecord) -> bool {
    &&& info._id@ == listed_id(r)
    &&& info.filename@ == text_or(r.filename, unknown_text())
    &&& info.expire_at@ == listed_expiry(r)
}

/// The listing entry of one record; what is absent reads `"unknown"`.
pub fn file_info(record: &FileRecord) -> (r: FileInfo)
    ensures
        lists_as(r, *record),
{
    let _id = match &record.id {
        Some(id) => id.to_hex(),
        None => String::from_str("unknown"),
    };
    let filename = string_or(&record.filename, "unknown");
    let expire_at = match record.expire_at {
        Some(ms) => expiry_to_text(ms),
        None => String::from_str("unknown"),
    };
    FileInfo { _id, filename, expire_at }
}

/// One entry per record, in the order the store handed them out.
pub fn list_entries(records: &Vec<FileRecord>) -> (r: Vec<FileInfo>)
    ensures
        r@.len() == records@.len(),
        forall|i: int| 0 <= i < records@.len() ==> lists_as(#[trigger] r@[i], records@[i]),
{
    let mut out: Vec<FileInfo> = Vec::new();
    let mut i: usize = 0;
    while i < records.len()
        invariant
            i <= records@.len(),
            out@.len() == i,
            forall|j: int| 0 <= j < i ==> lists_as(#[trigger] out@[j], records@[j]),
        decreases records@.len() - i,
    {
        out.push(file_info(&records[i]));
        i += 1;
    }
    out
}

/// The listing for the outcome of scanning the metadata collection: one
/// entry per record, or the store failure carrying the store's message.
pub fn list_files(scan: Result<Vec<FileRecord>, String>) -> (r: Result<Vec<FileInfo>, AppError>)
    ensures
        match scan {
            Ok(records) => r matches Ok(entries)
                && entries@.len() == records@.len()
                && forall|i: int| 0 <= i < records@.len() ==> lists_as(#[trigger] entries@[i], records@[i]),
            Err(m) => r matches Err(e) && e matches AppError::DatabaseError(d) && d@ == m@
                && status_of(e) == STATUS_INTERNAL_ERROR,
        },
{
    match scan {
        Ok(records) => Ok(list_entries(&records)),
        Err(m) => Err(AppError::DatabaseError(m)),
    }
}

} // verus!
