use vstd::prelude::*;
use crate::download::{attachment_text, default_download_name};
use crate::listing::listed_id;
use crate::model::{default_content_type, text_or, FileRecord};
use crate::object_id::{decode_hex, encode_hex, is_object_id_text, lemma_hex_round_trip, FileId};

verus! {

/// What an upload hands back leads to what was uploaded: the identifier in
/// the upload response is accepted by the download and names the same file;
/// downloading the record stored under it announces the uploaded content type
/// and offers the payload under the uploaded filename; and the listing shows
/// the same identifier text that the upload returned.
pub proof fn lemma_upload_then_download(
    id: FileId,
    record: FileRecord,
    filename: Seq<char>,
    content_type: Seq<char>,
)
    requires
        record.id == Some(id),
        record.filename matches Some(f) && f@ == filename,
        record.content_type matches Some(c) && c@ == content_type,
    ensures
        is_object_id_text(encode_hex(id.bytes@)),
        decode_hex(encode_hex(id.bytes@)) == id.bytes@,
        text_or(record.content_type, default_content_type()) == content_type,
        attachment_text(text_or(record.filename, default_download_name())).subrange(
            22,
            22 + filename.len() as int,
        ) == filename,
        listed_id(record) == encode_hex(id.bytes@),
{
    lemma_hex_round_trip(id);
    reveal_strlit("attachment; filename=\"");
    let a = attachment_text(filename);
    assert(a.subrange(22, 22 + filename.len() as int) =~= filename);
}

} // verus!
