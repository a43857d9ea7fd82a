//! The state machine that drives the loading of an asset archive, one step per frame.
use super::archive::{
    archive_entry, archive_entry_count, file_extension, file_stem, path_extension, path_file_stem,
    zip_entry, zip_entry_count,
};
use super::AssetsLoadingStatus;
use crate::filesystem::FileLoadingStatus;
use crate::text::{chars_equal, chars_of, string_from_chars};
use vstd::prelude::*;

verus! {

/// What happened since the last step of the loader.
#[derive(Copy, Clone, Debug, PartialEq, Eq, Structural)]
pub enum LoaderEvent {
    /// A step with no outside news: an idle loader has just asked for the archive to be
    /// read, a finished one is acknowledged.
    Tick,
    /// The archive file's reading reports this status.
    FileStatus(FileLoadingStatus),
    /// The archive could not be opened.
    ArchiveUnreadable,
    /// The archive was opened and holds this many entries.
    ArchiveEntries(usize),
}

/// Status of the loader and index of the next archive entry to load.
#[derive(Copy, Clone, Debug, PartialEq, Eq, Structural)]
pub struct LoaderState {
    pub status: AssetsLoadingStatus,
    pub current_index: usize,
}

/// The state after a step, and the archive entry that the step hands out, if any.
pub open spec fn next_state(state: LoaderState, event: LoaderEvent) -> (LoaderState, Option<usize>) {
    match (state.status, event) {
        (AssetsLoadingStatus::Idle, LoaderEvent::Tick) => (
            LoaderState { status: AssetsLoadingStatus::Loading, ..state },
            None,
        ),
        (AssetsLoadingStatus::Finished, LoaderEvent::Tick) => (
            LoaderState { status: AssetsLoadingStatus::Idle, ..state },
            None,
        ),
        (AssetsLoadingStatus::Loading, LoaderEvent::FileStatus(FileLoadingStatus::Finished)) => (
            LoaderState { status: AssetsLoadingStatus::Parsing, ..state },
            None,
        ),
        (AssetsLoadingStatus::Loading, LoaderEvent::FileStatus(FileLoadingStatus::Error)) => (
            LoaderState { status: AssetsLoadingStatus::Error, ..state },
            None,
        ),
        (AssetsLoadingStatus::Parsing, LoaderEvent::ArchiveUnreadable) => (
            LoaderState { status: AssetsLoadingStatus::Error, ..state },
            None,
        ),
        (AssetsLoadingStatus::Parsing, LoaderEvent::ArchiveEntries(count)) => if state.current_index
            == count {
            (LoaderState { status: AssetsLoadingStatus::Finished, ..state }, None)
        } else {
            (
                LoaderState { current_index: (state.current_index + 1) as usize, ..state },
                Some(state.current_index),
            )
        },
        _ => (state, None),
    }
}

/// The state after a request for an archive: a finished or failed load of another
/// archive starts over.
pub open spec fn restarted(state: LoaderState, same_input: bool) -> LoaderState {
    if (state.status == AssetsLoadingStatus::Finished || state.status == AssetsLoadingStatus::Error)
        && !same_input {
        LoaderState { status: AssetsLoadingStatus::Idle, current_index: 0 }
    } else {
        state
    }
}

impl LoaderState {
    /// Idle loader.
    pub fn new() -> (state: Self)
        ensures
            state == (LoaderState { status: AssetsLoadingStatus::Idle, current_index: 0 }),
    {
        LoaderState { status: AssetsLoadingStatus::Idle, current_index: 0 }
    }

    /// Starts over when a finished or failed load was for another archive than the
    /// one requested now; returns whether it did.
    pub fn restart(&mut self, same_input: bool) -> (restarted_now: bool)
        ensures
            *final(self) == restarted(*old(self), same_input),
            restarted_now == ((old(self).status == AssetsLoadingStatus::Finished || old(self).status
                == AssetsLoadingStatus::Error) && !same_input),
    {
        if (self.status == AssetsLoadingStatus::Finished || self.status == AssetsLoadingStatus::Error)
            && !same_input {
            self.status = AssetsLoadingStatus::Idle;
            self.current_index = 0;
            true
        } else {
            false
        }
    }

    /// Takes one step; returns the index of the archive entry to load now, if any.
    pub fn advance(&mut self, event: LoaderEvent) -> (entry: Option<usize>)
        requires
            old(self).current_index < usize::MAX,
        ensures
            (*final(self), entry) == next_state(*old(self), event),
    {
        match (self.status, event) {
            (AssetsLoadingStatus::Idle, LoaderEvent::Tick) => {
                self.status = AssetsLoadingStatus::Loading;
                None
            },
            (AssetsLoadingStatus::Finished, LoaderEvent::Tick) => {
                self.status = AssetsLoadingStatus::Idle;
                None
            },
            (AssetsLoadingStatus::Loading, LoaderEvent::FileStatus(FileLoadingStatus::Finished)) => {
                self.status = AssetsLoadingStatus::Parsing;
                None
            },
            (AssetsLoadingStatus::Loading, LoaderEvent::FileStatus(FileLoadingStatus::Error)) => {
                self.status = AssetsLoadingStatus::Error;
                None
            },
            (AssetsLoadingStatus::Parsing, LoaderEvent::ArchiveUnreadable) => {
                self.status = AssetsLoadingStatus::Error;
                None
            },
            (AssetsLoadingStatus::Parsing, LoaderEvent::ArchiveEntries(count)) => {
                if self.current_index == count {
                    self.status = AssetsLoadingStatus::Finished;
                    None
                } else {
                    let entry = self.current_index;
                    self.current_index = self.current_index + 1;
                    Some(entry)
                }
            },
            _ => None,
        }
    }
}

/// The entries that `steps` steps hand out, starting from a parsing loader at entry
/// `first` of an archive of `count` entries, and the state they leave.
pub open spec fn parse_steps(first: usize, count: usize, steps: nat) -> (LoaderState, Seq<usize>)
    decreases steps,
{
    if steps == 0 {
        (LoaderState { status: AssetsLoadingStatus::Parsing, current_index: first }, Seq::empty())
    } else {
        let (state, handed) = parse_steps(first, count, (steps - 1) as nat);
        let (next, entry) = next_state(state, LoaderEvent::ArchiveEntries(count));
        (
            next,
            match entry {
                Some(e) => handed.push(e),
                None => handed,
            },
        )
    }
}

/// Parsing an archive of `count` entries hands out every entry once, in order, one per
/// step, and finishes at the next step.
pub proof fn lemma_parsing_hands_out_every_entry(count: usize, steps: nat)
    requires
        steps <= count,
    ensures
        parse_steps(0, count, steps) == (
            LoaderState { status: AssetsLoadingStatus::Parsing, current_index: steps as usize },
            Seq::new(steps, |i: int| i as usize),
        ),
        steps == count ==> parse_steps(0, count, steps + 1).0.status == AssetsLoadingStatus::Finished,
    decreases steps,
{
    if steps > 0 {
        lemma_parsing_hands_out_every_entry(count, (steps - 1) as nat);
        let (_, handed) = parse_steps(0, count, (steps - 1) as nat);
        assert(handed.push((steps - 1) as usize) =~= Seq::new(steps, |i: int| i as usize));
    }
    let (state, _) = parse_steps(0, count, steps);
    assert(parse_steps(0, count, steps + 1).0 == next_state(
        state,
        LoaderEvent::ArchiveEntries(count),
    ).0);
}

/// A whole load of an archive of `count` entries, from an idle loader: the first step asks
/// for the file (Loading), which stays so while the read is under way; a finished read
/// moves to Parsing, each of the next `count` steps hands out the next entry, the step
/// after finishes, and the one after that is idle again; a failed read fails the load,
/// and a failed load answers every later step with the same failure.
pub proof fn lemma_whole_load(count: usize)
    ensures
        ({
            let idle = LoaderState { status: AssetsLoadingStatus::Idle, current_index: 0 };
            let loading = next_state(idle, LoaderEvent::Tick).0;
            let parsing = next_state(loading, LoaderEvent::FileStatus(FileLoadingStatus::Finished)).0;
            let finished = parse_steps(0, count, (count + 1) as nat).0;
            &&& loading.status == AssetsLoadingStatus::Loading
            &&& parsing == (LoaderState { status: AssetsLoadingStatus::Parsing, current_index: 0 })
            &&& parse_steps(0, count, count as nat).1 == Seq::new(count as nat, |i: int| i as usize)
            &&& finished.status == AssetsLoadingStatus::Finished
            &&& next_state(finished, LoaderEvent::Tick).0.status == AssetsLoadingStatus::Idle
            &&& next_state(loading, LoaderEvent::FileStatus(FileLoadingStatus::Loading)) == (
            loading,
            None::<usize>,
            )
            &&& next_state(loading, LoaderEvent::FileStatus(FileLoadingStatus::Error)).0.status
                == AssetsLoadingStatus::Error
            &&& forall|event: LoaderEvent|
                #![trigger next_state(next_state(loading, LoaderEvent::FileStatus(FileLoadingStatus::Error)).0, event)]
                next_state(
                    next_state(loading, LoaderEvent::FileStatus(FileLoadingStatus::Error)).0,
                    event,
                ) == (
                    next_state(loading, LoaderEvent::FileStatus(FileLoadingStatus::Error)).0,
                    None::<usize>,
                )
        }),
{
    lemma_parsing_hands_out_every_entry(count, count as nat);
}

/// A failed load stays failed until a different archive is requested.
pub proof fn lemma_error_is_sticky(state: LoaderState, event: LoaderEvent)
    requires
        state.status == AssetsLoadingStatus::Error,
    ensures
        next_state(state, event) == (state, None::<usize>),
        restarted(state, true) == state,
{
}

/// Kinds of asset that the loader reads from an archive.
#[derive(Copy, Clone, Debug, PartialEq, Eq, Structural)]
pub enum AssetKind {
    Png,
    Ttf,
    Xml,
    Ldtk,
    Wav,
    Ogg,
}

/// The kind of asset that a file extension stands for; `None` when it is not supported.
pub open spec fn kind_of_extension(extension: Seq<char>) -> Option<AssetKind> {
    if extension == "png"@ {
        Some(AssetKind::Png)
    } else if extension == "ttf"@ {
        Some(AssetKind::Ttf)
    } else if extension == "xml"@ {
        Some(AssetKind::Xml)
    } else if extension == "ldtk"@ {
        Some(AssetKind::Ldtk)
    } else if extension == "wav"@ {
        Some(AssetKind::Wav)
    } else if extension == "ogg"@ {
        Some(AssetKind::Ogg)
    } else {
        None
    }
}

/// The kind of asset that a file extension stands for; `None` when it is not supported.
pub fn asset_kind(extension: &str) -> (kind: Option<AssetKind>)
    ensures
        kind == kind_of_extension(extension@),
{
    let extension = chars_of(extension);
    if chars_equal(&extension, &chars_of("png")) {
        Some(AssetKind::Png)
    } else if chars_equal(&extension, &chars_of("ttf")) {
        Some(AssetKind::Ttf)
    } else if chars_equal(&extension, &chars_of("xml")) {
        Some(AssetKind::Xml)
    } else if chars_equal(&extension, &chars_of("ldtk")) {
        Some(AssetKind::Ldtk)
    } else if chars_equal(&extension, &chars_of("wav")) {
        Some(AssetKind::Wav)
    } else if chars_equal(&extension, &chars_of("ogg")) {
        Some(AssetKind::Ogg)
    } else {
        None
    }
}

/// An archive entry to decode: its name (the file stem), its path in the asset tree (the
/// entry's path after a `/`), its kind and its content.
pub struct ArchiveAsset {
    pub name: String,
    pub path: String,
    pub kind: AssetKind,
    pub data: Vec<u8>,
}

/// Mathematical model of an [`ArchiveAsset`].
pub struct ArchiveAssetView {
    pub name: Seq<char>,
    pub path: Seq<char>,
    pub kind: AssetKind,
    pub data: Seq<u8>,
}

impl View for ArchiveAsset {
    type V = ArchiveAssetView;

    open spec fn view(&self) -> ArchiveAssetView {
        ArchiveAssetView { name: self.name@, path: self.path@, kind: self.kind, data: self.data@ }
    }
}

/// The asset that an archive entry gives: a plain file whose path has a stem and a
/// supported extension; anything else is skipped.
pub open spec fn asset_of_entry(entry: Option<(bool, Seq<char>, Seq<u8>)>) -> Option<ArchiveAssetView> {
    match entry {
        Some((is_file, path, data)) => if !is_file {
            None
        } else {
            match (path_file_stem(path), path_extension(path)) {
                (Some(stem), Some(extension)) => match kind_of_extension(extension) {
                    Some(kind) => Some(
                        ArchiveAssetView { name: stem, path: seq!['/'] + path, kind, data },
                    ),
                    None => None,
                },
                _ => None,
            }
        },
        None => None,
    }
}

/// Mathematical model of an archive entry read by `zip`.
pub open spec fn entry_view(entry: Option<(bool, String, Vec<u8>)>) -> Option<(bool, Seq<char>, Seq<u8>)> {
    match entry {
        Some((is_file, path, data)) => Some((is_file, path@, data@)),
        None => None,
    }
}

/// The asset that an archive entry read by `zip` gives, if any.
pub fn asset_from_entry(entry: Option<(bool, String, Vec<u8>)>) -> (asset: Option<ArchiveAsset>)
    ensures
        match asset {
            Some(a) => asset_of_entry(entry_view(entry)) == Some(a@),
            None => asset_of_entry(entry_view(entry)) is None,
        },
{
    match entry {
        Some((is_file, path, data)) => {
            if !is_file {
                return None;
            }
            let stem = file_stem(path.as_str());
            let extension = file_extension(path.as_str());
            match (stem, extension) {
                (Some(stem), Some(extension)) => match asset_kind(extension.as_str()) {
                    Some(kind) => {
                        let mut chars: Vec<char> = Vec::new();
                        chars.push('/');
                        let mut rest = chars_of(path.as_str());
                        chars.append(&mut rest);
                        let full = string_from_chars(&chars);
                        assert(full@ =~= seq!['/'] + path@);
                        Some(ArchiveAsset { name: stem, path: full, kind, data })
                    },
                    None => None,
                },
                _ => None,
            }
        },
        None => None,
    }
}

/// The state after a step of a loader over the bytes of an archive, and the asset that the
/// step hands out: the archive is opened anew, a parsing loader moves on to the next entry
/// (or finishes after the last one), and that entry gives an asset if it is a supported file.
pub open spec fn parsing_step(state: LoaderState, archive: Seq<u8>) -> (LoaderState, Option<ArchiveAssetView>) {
    let event = match zip_entry_count(archive) {
        Some(count) => LoaderEvent::ArchiveEntries(count),
        None => LoaderEvent::ArchiveUnreadable,
    };
    let (next, entry) = next_state(state, event);
    (
        next,
        match entry {
            Some(index) => asset_of_entry(zip_entry(archive, index)),
            None => None,
        },
    )
}

impl LoaderState {
    /// Takes one step over the bytes of the archive that was read: opens it, moves on to
    /// the next entry and returns the asset that the entry holds, if any. An archive that
    /// cannot be opened makes the load fail.
    pub fn parse_archive(&mut self, archive: &[u8]) -> (asset: Option<ArchiveAsset>)
        requires
            old(self).current_index < usize::MAX,
        ensures
            *final(self) == parsing_step(*old(self), archive@).0,
            match asset {
                Some(a) => parsing_step(*old(self), archive@).1 == Some(a@),
                None => parsing_step(*old(self), archive@).1 is None,
            },
    {
        let event = match archive_entry_count(archive) {
            Some(count) => LoaderEvent::ArchiveEntries(count),
            None => LoaderEvent::ArchiveUnreadable,
        };
        match self.advance(event) {
            Some(index) => asset_from_entry(archive_entry(archive, index)),
            None => None,
        }
    }
}

} // verus!
