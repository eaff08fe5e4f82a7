//! Installing opened documents into the model and folder navigation.
//!
//! Reading directories and opening files belongs to the owning
//! application; everything that decides — which entries are supported,
//! which entry navigation selects, and how an open outcome changes the
//! model — is here. Navigation returns the path the owner must open next;
//! installing a decode outcome resets the view state exactly as a fresh
//! document demands, and leaves the model documentless with the error
//! recorded when the open failed.

use vstd::prelude::*;
use vstd::string::StringExecFns;


use crate::content::DocumentContent;
use crate::document::{spec_document_kind, spec_error_message, DocumentError, DocumentKind};
use crate::model::{AppModel, ViewMode};

verus! {

/// The subsequence of paths whose extension selects a document backend,
/// in order.
pub open spec fn spec_supported_of(s: Seq<String>) -> Seq<String>
    decreases s.len(),
{
    if s.len() == 0 {
        Seq::empty()
    } else {
        let rest = spec_supported_of(s.drop_last());
        if spec_document_kind(s.last()@) is Some {
            rest.push(s.last())
        } else {
            rest
        }
    }
}

/// Keep the paths that select a document backend, preserving their
/// order. Listing and sorting the directory is the caller's part.
pub fn collect_supported_files(paths: Vec<String>) -> (r: Vec<String>)
    ensures
        r@ == spec_supported_of(paths@),
{
    let mut out: Vec<String> = Vec::new();
    let mut i: usize = 0;
    while i < paths.len()
        invariant
            i <= paths@.len(),
            out@ == spec_supported_of(paths@.take(i as int)),
        decreases paths@.len() - i,
    {
        let keep = DocumentKind::from_path(paths[i].as_str()).is_some();
        if keep {
            out.push(paths[i].clone());
        }
        proof {
            assert(paths@.take(i + 1).drop_last() =~= paths@.take(i as int));
            assert(paths@.take(i + 1).last() == paths@[i as int]);
        }
        i += 1;
    }
    proof {
        assert(paths@.take(paths@.len() as int) =~= paths@);
    }
    out
}

/// Load a document-open outcome into the model, resetting view state: a
/// decoded document is installed with the path, cleared error, centred
/// pan and fit-to-window view; a failure installs nothing and records the
/// error, leaving the previous path cleared.
pub fn load_document_into_model(
    model: &mut AppModel,
    path: &str,
    outcome: Result<DocumentContent, DocumentError>,
)
    requires
        old(model).wf(),
        (outcome matches Ok(d) ==> d.wf()),
    ensures
        final(model).wf(),
        final(model).config == old(model).config,
        final(model).folder_entries == old(model).folder_entries,
        final(model).current_index == old(model).current_index,
        final(model).tool_mode == old(model).tool_mode,
        final(model).tick == old(model).tick,
        (outcome matches Ok(d) ==> final(model).document == Some(d) && final(model).metadata
            is None && (final(model).current_path matches Some(p) && p@ == path@) && final(model).error is None && final(model).pan_x == 0 && final(model).pan_y == 0 && final(model).view_mode == ViewMode::Fit),
        (outcome matches Err(e) ==> final(model).document is None && final(model).current_path
            is None && (final(model).error matches Some(m) && m@ == spec_error_message(e))),
{
    match outcome {
        Ok(doc) => {
            model.document = Some(doc);
            model.metadata = None;
            model.current_path = Some(String::from_str(path));
            model.clear_error();
            model.reset_pan();
            model.view_mode = ViewMode::Fit;
        },
        Err(e) => {
            model.document = None;
            model.current_path = None;
            let msg = e.message();
            model.set_error(msg);
        },
    }
}

/// The folder index navigation selects when stepping forward: one past
/// the current index, wrapping to the first entry.
pub open spec fn spec_next_index(current: Option<usize>, len: int) -> int {
    match current {
        Some(i) => if i as int + 1 < len {
            i as int + 1
        } else {
            0
        },
        None => 0,
    }
}

/// The folder index navigation selects when stepping backward: one
/// before the current index, wrapping to the last entry.
pub open spec fn spec_prev_index(current: Option<usize>, len: int) -> int {
    match current {
        Some(i) => if i > 0 {
            i as int - 1
        } else {
            len - 1
        },
        None => if len > 0 {
            len - 1
        } else {
            0
        },
    }
}

/// Step to the next document in the folder, wrapping around: updates the
/// folder index and returns the path the owner must open, or nothing
/// when the folder is empty.
pub fn navigate_next(model: &mut AppModel) -> (r: Option<String>)
    requires
        old(model).wf(),
    ensures
        final(model).wf(),
        (old(model).folder_entries@.len() == 0 ==> r is None && *final(model) == *old(model)),
        (old(model).folder_entries@.len() > 0 ==> {
            let ix = spec_next_index(
                old(model).current_index,
                old(model).folder_entries@.len() as int,
            );
            &&& *final(model) == (AppModel {
                current_index: Some(ix as usize),
                ..*old(model)
            })
            &&& (r matches Some(p) && p@ == old(model).folder_entries@[ix]@)
        }),
{
    if model.folder_entries.len() == 0 {
        return None;
    }
    let new_index: usize = match model.current_index {
        Some(idx) => {
            if idx + 1 < model.folder_entries.len() {
                idx + 1
            } else {
                0
            }
        },
        None => 0,
    };
    model.current_index = Some(new_index);
    Some(model.folder_entries[new_index].clone())
}

/// Step to the previous document in the folder, wrapping around: updates
/// the folder index and returns the path the owner must open, or nothing
/// when the folder is empty.
pub fn navigate_prev(model: &mut AppModel) -> (r: Option<String>)
    requires
        old(model).wf(),
    ensures
        final(model).wf(),
        (old(model).folder_entries@.len() == 0 ==> r is None && *final(model) == *old(model)),
        (old(model).folder_entries@.len() > 0 ==> {
            let ix = spec_prev_index(
                old(model).current_index,
                old(model).folder_entries@.len() as int,
            );
            &&& *final(model) == (AppModel {
                current_index: Some(ix as usize),
                ..*old(model)
            })
            &&& (r matches Some(p) && p@ == old(model).folder_entries@[ix]@)
        }),
{
    if model.folder_entries.len() == 0 {
        return None;
    }
    let new_index: usize = match model.current_index {
        Some(idx) => {
            if idx > 0 {
                idx - 1
            } else {
                model.folder_entries.len() - 1
            }
        },
        None => model.folder_entries.len() - 1,
    };
    model.current_index = Some(new_index);
    Some(model.folder_entries[new_index].clone())
}

/// Refresh the folder listing and the current index from a freshly
/// listed folder: the index points at the first entry equal to the
/// active path, or nowhere when the path is not among the entries.
pub fn refresh_folder_entries(model: &mut AppModel, entries: Vec<String>, current: &str)
    requires
        old(model).wf(),
    ensures
        final(model).wf(),
        final(model).folder_entries == entries,
        (final(model).current_index matches Some(i) ==> (i as int) < entries@.len()
            && entries@[i as int]@ == current@ && (forall|j: int|
            0 <= j < i ==> entries@[j]@ != current@)),
        (final(model).current_index is None ==> forall|j: int|
            0 <= j < entries@.len() ==> entries@[j]@ != current@),
        final(model).document == old(model).document,
        final(model).config == old(model).config,
        final(model).view_mode == old(model).view_mode,
        final(model).current_path == old(model).current_path,
{
    let cur: String = String::from_str(current);
    let found = position_of(&entries, &cur);
    model.folder_entries = entries;
    model.current_index = found;
}

/// The position of the first entry equal to a path, if any.
fn position_of(entries: &Vec<String>, cur: &String) -> (r: Option<usize>)
    ensures
        (r matches Some(i) ==> (i as int) < entries@.len() && entries@[i as int]@ == cur@ && (
        forall|j: int| 0 <= j < i ==> entries@[j]@ != cur@)),
        (r is None ==> forall|j: int| 0 <= j < entries@.len() ==> entries@[j]@ != cur@),
{
    let mut i: usize = 0;
    while i < entries.len()
        invariant
            i <= entries@.len(),
            forall|j: int| 0 <= j < i ==> entries@[j]@ != cur@,
        decreases entries@.len() - i,
    {
        if entries[i].eq(cur) {
            return Some(i);
        }
        i += 1;
    }
    None
}

} // verus!
