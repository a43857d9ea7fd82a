//! Asset loading: raw assets read from an archive, the loader's state machine and the
//! choice of a loader by file extension.
pub mod archive;
pub mod loader;
pub mod texture;

use vstd::prelude::*;
use vstd::slice::slice_to_vec;

verus! {

/// Progress of loading an asset archive.
#[derive(Copy, Clone, Debug, PartialEq, Eq, Structural)]
pub enum AssetsLoadingStatus {
    Idle,
    Loading,
    Parsing,
    Finished,
    Error,
}

/// Font file read from an archive.
pub struct RawFont {
    pub name: String,
    pub path: String,
    pub data: Vec<u8>,
}

/// Sound file read from an archive.
pub struct RawSound {
    pub name: String,
    pub path: String,
    pub data: Vec<u8>,
}

impl RawFont {
    /// Font with the given name, path in the archive and content.
    pub fn new(name: &str, path: &str, data: &[u8]) -> (font: Self)
        ensures
            font.name@ == name@,
            font.path@ == path@,
            font.data@ == data@,
    {
        RawFont { name: name.to_owned(), path: path.to_owned(), data: slice_to_vec(data) }
    }
}

impl RawSound {
    /// Sound with the given name, path in the archive and content.
    pub fn new(name: &str, path: &str, data: &[u8]) -> (sound: Self)
        ensures
            sound.name@ == name@,
            sound.path@ == path@,
            sound.data@ == data@,
    {
        RawSound { name: name.to_owned(), path: path.to_owned(), data: slice_to_vec(data) }
    }
}

} // verus!
