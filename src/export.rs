//! Export of a session's screenshots as entries, and their import back into
//! a session.

use vstd::prelude::*;
use crate::model::{Screenshot, ScreenshotMetadata};

verus! {

/// One exported screenshot: everything but the owning session.
#[derive(Debug, Clone)]
pub struct ExportEntry {
    pub id: u128,
    pub file_path: String,
    pub page_number: u32,
    pub timestamp: i64,
    pub file_size_bytes: u64,
    pub image_width: u32,
    pub image_height: u32,
    pub capture_duration_ms: u32,
    pub display_scale_percent: u32,
    pub color_space: String,
    pub checksum: String,
}

/// Why an import was refused.
#[derive(Debug, Clone, Copy, PartialEq, Eq, Structural)]
pub enum ImportError {
    /// The entry at this position does not have a larger page number than
    /// the one before it.
    PageOrder(usize),
}

pub open spec fn entry_of(s: Screenshot) -> ExportEntry {
    ExportEntry {
        id: s.id,
        file_path: s.file_path,
        page_number: s.page_number,
        timestamp: s.timestamp,
        file_size_bytes: s.file_size_bytes,
        image_width: s.image_width,
        image_height: s.image_height,
        capture_duration_ms: s.capture_duration_ms,
        display_scale_percent: s.metadata.display_scale_percent,
        color_space: s.metadata.color_space,
        checksum: s.metadata.checksum,
    }
}

pub open spec fn shot_of(e: ExportEntry, session_id: u128) -> Screenshot {
    Screenshot {
        id: e.id,
        file_path: e.file_path,
        page_number: e.page_number,
        timestamp: e.timestamp,
        book_session_id: session_id,
        file_size_bytes: e.file_size_bytes,
        image_width: e.image_width,
        image_height: e.image_height,
        capture_duration_ms: e.capture_duration_ms,
        metadata: ScreenshotMetadata {
            display_scale_percent: e.display_scale_percent,
            color_space: e.color_space,
            checksum: e.checksum,
        },
    }
}

/// Page numbers strictly increase along the entries.
pub open spec fn pages_increase(es: Seq<ExportEntry>) -> bool {
    forall|i: int| 0 < i < es.len() ==> es[i - 1].page_number < (#[trigger] es[i]).page_number
}

/// The first position whose page number does not increase.
pub open spec fn first_out_of_order(es: Seq<ExportEntry>, k: int) -> bool {
    &&& 0 < k < es.len()
    &&& es[k - 1].page_number >= es[k].page_number
    &&& forall|i: int| 0 < i < k ==> es[i - 1].page_number < (#[trigger] es[i]).page_number
}

/// The entries of screenshots, in the same order.
pub fn export_entries(shots: &Vec<Screenshot>) -> (r: Vec<ExportEntry>)
    ensures
        r@ == shots@.map_values(|s: Screenshot| entry_of(s)),
{
    let mut out: Vec<ExportEntry> = Vec::new();
    let mut i: usize = 0;
    while i < shots.len()
        invariant
            i <= shots@.len(),
            out@ == shots@.subrange(0, i as int).map_values(|s: Screenshot| entry_of(s)),
        decreases shots@.len() - i,
    {
        let s = &shots[i];
        let e = ExportEntry {
            id: s.id,
            file_path: s.file_path.clone(),
            page_number: s.page_number,
            timestamp: s.timestamp,
            file_size_bytes: s.file_size_bytes,
            image_width: s.image_width,
            image_height: s.image_height,
            capture_duration_ms: s.capture_duration_ms,
            display_scale_percent: s.metadata.display_scale_percent,
            color_space: s.metadata.color_space.clone(),
            checksum: s.metadata.checksum.clone(),
        };
        out.push(e);
        assert(shots@.subrange(0, i + 1).map_values(|s: Screenshot| entry_of(s)) =~= shots@.subrange(
            0,
            i as int,
        ).map_values(|s: Screenshot| entry_of(s)).push(entry_of(shots@[i as int])));
        i = i + 1;
    }
    assert(shots@.subrange(0, shots@.len() as int) =~= shots@);
    out
}

/// Screenshots of the session `session_id` from exported entries, in the
/// same order. Refused where page numbers do not strictly increase.
pub fn import_entries(entries: &Vec<ExportEntry>, session_id: u128) -> (r: Result<Vec<Screenshot>, ImportError>)
    ensures
        pages_increase(entries@) <==> r is Ok,
        r matches Ok(v) ==> v@ == entries@.map_values(|e: ExportEntry| shot_of(e, session_id)),
        r matches Err(ImportError::PageOrder(k)) ==> first_out_of_order(entries@, k as int),
{
    let mut out: Vec<Screenshot> = Vec::new();
    let mut i: usize = 0;
    while i < entries.len()
        invariant
            i <= entries@.len(),
            out@ == entries@.subrange(0, i as int).map_values(|e: ExportEntry| shot_of(e, session_id)),
            forall|j: int| 0 < j < i ==> entries@[j - 1].page_number < (#[trigger] entries@[j]).page_number,
        decreases entries@.len() - i,
    {
        let e = &entries[i];
        if i > 0 && entries[i - 1].page_number >= e.page_number {
            return Err(ImportError::PageOrder(i));
        }
        let s = Screenshot {
            id: e.id,
            file_path: e.file_path.clone(),
            page_number: e.page_number,
            timestamp: e.timestamp,
            book_session_id: session_id,
            file_size_bytes: e.file_size_bytes,
            image_width: e.image_width,
            image_height: e.image_height,
            capture_duration_ms: e.capture_duration_ms,
            metadata: ScreenshotMetadata {
                display_scale_percent: e.display_scale_percent,
                color_space: e.color_space.clone(),
                checksum: e.checksum.clone(),
            },
        };
        out.push(s);
        assert(entries@.subrange(0, i + 1).map_values(|e: ExportEntry| shot_of(e, session_id)) =~= entries@.subrange(
            0,
            i as int,
        ).map_values(|e: ExportEntry| shot_of(e, session_id)).push(shot_of(entries@[i as int], session_id)));
        i = i + 1;
    }
    assert(entries@.subrange(0, entries@.len() as int) =~= entries@);
    Ok(out)
}

} // verus!
