//! Checks made on a parsed script before anything is changed.
use vstd::prelude::*;
use crate::script::{Track, TrackView, track_views};

verus! {

/// Why a script cannot be run.
#[derive(Debug, Clone)]
pub enum ValidationError {
    /// The file block with this ordinal (counting file blocks from 1) has an
    /// empty `file=` value.
    MissingFilename { ordinal: usize },
    /// A file block names a path that does not exist.
    FileNotFound { path: String },
}

/// The mathematical value of a [`ValidationError`].
pub enum ValidationErrorView {
    MissingFilename(nat),
    FileNotFound(Seq<char>),
}

impl View for ValidationError {
    type V = ValidationErrorView;

    open spec fn view(&self) -> ValidationErrorView {
        match self {
            ValidationError::MissingFilename { ordinal } => ValidationErrorView::MissingFilename(
                *ordinal as nat,
            ),
            ValidationError::FileNotFound { path } => ValidationErrorView::FileNotFound(path@),
        }
    }
}

/// The outcome of checking `ts[i..]`, where `ord` file blocks came before
/// `i` and `exists[j]` tells whether the path of block `j` exists.
pub open spec fn validate_from(
    ts: Seq<TrackView>,
    exists: Seq<bool>,
    i: int,
    ord: nat,
) -> Result<(), ValidationErrorView>
    decreases ts.len() - i,
{
    if i < 0 || i >= ts.len() {
        Ok(())
    } else if ts[i].is_default {
        validate_from(ts, exists, i + 1, ord)
    } else if ts[i].original_filename.len() == 0 {
        Err(ValidationErrorView::MissingFilename(ord + 1))
    } else if !exists[i] {
        Err(ValidationErrorView::FileNotFound(ts[i].original_filename))
    } else {
        validate_from(ts, exists, i + 1, ord + 1)
    }
}

/// The outcome of checking a script: the first file block, in order, with an
/// empty path or a path that does not exist, fails it.
pub open spec fn validation(ts: Seq<TrackView>, exists: Seq<bool>) -> Result<(), ValidationErrorView> {
    validate_from(ts, exists, 0, 0)
}

/// Whether file block `i` would pass the check.
pub open spec fn block_ok(ts: Seq<TrackView>, exists: Seq<bool>, i: int) -> bool {
    ts[i].is_default || (ts[i].original_filename.len() > 0 && exists[i])
}

/// The number of file blocks in `ts[..i]`.
pub open spec fn file_blocks_before(ts: Seq<TrackView>, i: int) -> nat
    decreases i,
{
    if i <= 0 || i > ts.len() {
        0
    } else {
        file_blocks_before(ts, i - 1) + if ts[i - 1].is_default {
            0nat
        } else {
            1nat
        }
    }
}

proof fn lemma_validate_from_fails(ts: Seq<TrackView>, exists: Seq<bool>, i: int, j: int)
    requires
        0 <= i <= j < ts.len(),
        exists.len() == ts.len(),
        !block_ok(ts, exists, j),
        forall|m: int| i <= m < j ==> block_ok(ts, exists, m),
    ensures
        validate_from(ts, exists, i, file_blocks_before(ts, i)) == if ts[j].original_filename.len()
            == 0 {
            Err::<(), ValidationErrorView>(ValidationErrorView::MissingFilename(file_blocks_before(ts, j) + 1))
        } else {
            Err::<(), ValidationErrorView>(ValidationErrorView::FileNotFound(ts[j].original_filename))
        },
    decreases j - i,
{
    if i < j {
        assert(block_ok(ts, exists, i));
        assert(file_blocks_before(ts, i + 1) == file_blocks_before(ts, i) + if ts[i].is_default {
            0nat
        } else {
            1nat
        });
        lemma_validate_from_fails(ts, exists, i + 1, j);
    }
}

/// The first file block with an empty path, or with a path that does not
/// exist, fails the check of a script: with the block's ordinal among file
/// blocks in the first case, with its path in the second.
pub proof fn lemma_first_bad_block(ts: Seq<TrackView>, exists: Seq<bool>, j: int)
    requires
        0 <= j < ts.len(),
        exists.len() == ts.len(),
        !block_ok(ts, exists, j),
        forall|m: int| 0 <= m < j ==> block_ok(ts, exists, m),
    ensures
        ts[j].original_filename.len() == 0 ==> validation(ts, exists) == Err::<(), ValidationErrorView>(
            ValidationErrorView::MissingFilename(file_blocks_before(ts, j) + 1),
        ),
        ts[j].original_filename.len() > 0 ==> validation(ts, exists) == Err::<(), ValidationErrorView>(
            ValidationErrorView::FileNotFound(ts[j].original_filename),
        ),
{
    lemma_validate_from_fails(ts, exists, 0, j);
}

/// A script with any file block whose path is empty or does not exist
/// fails the check.
pub proof fn lemma_bad_block_fails(ts: Seq<TrackView>, exists: Seq<bool>, j: int)
    requires
        0 <= j < ts.len(),
        exists.len() == ts.len(),
        !block_ok(ts, exists, j),
    ensures
        validation(ts, exists) is Err,
    decreases j,
{
    if exists|m: int| 0 <= m < j && !block_ok(ts, exists, m) {
        let m = choose|m: int| 0 <= m < j && !block_ok(ts, exists, m);
        lemma_bad_block_fails(ts, exists, m);
    } else {
        lemma_first_bad_block(ts, exists, j);
    }
}

/// Checks every file block of a script, stopping at the first failure.
/// `exists[i]` tells whether the path of `tracks[i]` exists on disk.
pub fn validate_script(tracks: &Vec<Track>, exists: &Vec<bool>) -> (r: Result<(), ValidationError>)
    requires
        exists@.len() == tracks@.len(),
    ensures
        match r {
            Ok(()) => validation(track_views(tracks@), exists@) == Ok::<(), ValidationErrorView>(()),
            Err(e) => validation(track_views(tracks@), exists@) == Err::<(), ValidationErrorView>(e@),
        },
{
    let ghost ts = track_views(tracks@);
    let mut track_number: usize = 0;
    let mut i: usize = 0;
    while i < tracks.len()
        invariant
            ts == track_views(tracks@),
            exists@.len() == tracks@.len(),
            i <= tracks@.len(),
            track_number <= i,
            validate_from(ts, exists@, i as int, track_number as nat) == validation(ts, exists@),
        decreases tracks@.len() - i,
    {
        let track = &tracks[i];
        assert(ts[i as int] == track@);
        if !track.is_default {
            track_number = track_number + 1;
            if track.original_filename.as_str().is_empty() {
                return Err(ValidationError::MissingFilename { ordinal: track_number });
            }
            if !exists[i] {
                return Err(ValidationError::FileNotFound { path: track.original_filename.clone() });
            }
        }
        i = i + 1;
    }
    Ok(())
}

} // verus!
