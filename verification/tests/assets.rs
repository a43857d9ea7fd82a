use capybara::assets::loader::{asset_from_entry, asset_kind, AssetKind, LoaderEvent, LoaderState};
use capybara::assets::{AssetsLoadingStatus, RawFont, RawSound};
use capybara::filesystem::{status_after_read, status_for_request, FileLoadingStatus, FileState, ReadOutcome};
use std::io::Write;

fn archive(files: &[(&str, &[u8])], directories: &[&str]) -> Vec<u8> {
    let mut cursor = std::io::Cursor::new(Vec::new());
    {
        let mut writer = zip::ZipWriter::new(&mut cursor);
        let options = zip::write::SimpleFileOptions::default().compression_method(zip::CompressionMethod::Stored);
        for directory in directories {
            writer.add_directory(*directory, options).unwrap();
        }
        for (name, data) in files {
            writer.start_file(*name, options).unwrap();
            writer.write_all(data).unwrap();
        }
        writer.finish().unwrap();
    }
    cursor.into_inner()
}

fn parsing() -> LoaderState {
    let mut state = LoaderState::new();
    assert_eq!(state.advance(LoaderEvent::Tick), None);
    assert_eq!(state.advance(LoaderEvent::FileStatus(FileLoadingStatus::Finished)), None);
    assert_eq!(state.status, AssetsLoadingStatus::Parsing);
    state
}

#[test]
fn loader_walks_through_its_states() {
    let mut state = LoaderState::new();
    assert_eq!(state.status, AssetsLoadingStatus::Idle);
    assert_eq!(state.advance(LoaderEvent::Tick), None);
    assert_eq!(state.status, AssetsLoadingStatus::Loading);
    assert_eq!(state.advance(LoaderEvent::FileStatus(FileLoadingStatus::Loading)), None);
    assert_eq!(state.status, AssetsLoadingStatus::Loading);
    assert_eq!(state.advance(LoaderEvent::FileStatus(FileLoadingStatus::Finished)), None);
    assert_eq!(state.status, AssetsLoadingStatus::Parsing);
    assert_eq!(state.advance(LoaderEvent::ArchiveEntries(2)), Some(0));
    assert_eq!(state.advance(LoaderEvent::ArchiveEntries(2)), Some(1));
    assert_eq!(state.status, AssetsLoadingStatus::Parsing);
    assert_eq!(state.advance(LoaderEvent::ArchiveEntries(2)), None);
    assert_eq!(state.status, AssetsLoadingStatus::Finished);
    assert_eq!(state.advance(LoaderEvent::Tick), None);
    assert_eq!(state.status, AssetsLoadingStatus::Idle);
}

#[test]
fn loader_fails_on_file_error() {
    let mut state = LoaderState::new();
    state.advance(LoaderEvent::Tick);
    state.advance(LoaderEvent::FileStatus(FileLoadingStatus::Error));
    assert_eq!(state.status, AssetsLoadingStatus::Error);
    assert_eq!(state.advance(LoaderEvent::Tick), None);
    assert_eq!(state.status, AssetsLoadingStatus::Error);
}

#[test]
fn loader_fails_on_unreadable_archive() {
    let mut state = parsing();
    assert_eq!(state.advance(LoaderEvent::ArchiveUnreadable), None);
    assert_eq!(state.status, AssetsLoadingStatus::Error);
}

#[test]
fn loader_restarts_only_for_another_archive() {
    let mut state = LoaderState { status: AssetsLoadingStatus::Finished, current_index: 4 };
    assert!(!state.restart(true));
    assert_eq!(state.status, AssetsLoadingStatus::Finished);
    assert!(state.restart(false));
    assert_eq!(state, LoaderState::new());
    let mut state = LoaderState { status: AssetsLoadingStatus::Parsing, current_index: 4 };
    assert!(!state.restart(false));
    assert_eq!(state.current_index, 4);
    let mut state = LoaderState { status: AssetsLoadingStatus::Error, current_index: 1 };
    assert!(state.restart(false));
    assert_eq!(state.status, AssetsLoadingStatus::Idle);
}

#[test]
fn asset_kinds_by_extension() {
    assert_eq!(asset_kind("png"), Some(AssetKind::Png));
    assert_eq!(asset_kind("ttf"), Some(AssetKind::Ttf));
    assert_eq!(asset_kind("xml"), Some(AssetKind::Xml));
    assert_eq!(asset_kind("ldtk"), Some(AssetKind::Ldtk));
    assert_eq!(asset_kind("wav"), Some(AssetKind::Wav));
    assert_eq!(asset_kind("ogg"), Some(AssetKind::Ogg));
    assert_eq!(asset_kind("PNG"), None);
    assert_eq!(asset_kind("txt"), None);
    assert_eq!(asset_kind(""), None);
}

#[test]
fn entry_becomes_asset() {
    let asset = asset_from_entry(Some((true, "textures/player.png".to_string(), vec![1, 2]))).unwrap();
    assert_eq!(asset.name, "player");
    assert_eq!(asset.path, "/textures/player.png");
    assert_eq!(asset.kind, AssetKind::Png);
    assert_eq!(asset.data, vec![1, 2]);
}

#[test]
fn skipped_entries() {
    assert!(asset_from_entry(None).is_none());
    assert!(asset_from_entry(Some((false, "textures/".to_string(), vec![]))).is_none());
    assert!(asset_from_entry(Some((true, "readme.txt".to_string(), vec![1]))).is_none());
    assert!(asset_from_entry(Some((true, "Makefile".to_string(), vec![1]))).is_none());
    assert!(asset_from_entry(Some((true, ".ogg".to_string(), vec![1]))).is_none());
}

#[test]
fn archive_is_parsed_entry_by_entry() {
    let bytes = archive(&[("sounds/jump.wav", b"RIFF"), ("notes.txt", b"x"), ("font.ttf", b"TTF")], &["sounds/"]);
    let mut state = parsing();
    let first = state.parse_archive(&bytes);
    assert!(first.is_none());
    assert_eq!(state.current_index, 1);
    let second = state.parse_archive(&bytes).unwrap();
    assert_eq!(second.name, "jump");
    assert_eq!(second.path, "/sounds/jump.wav");
    assert_eq!(second.kind, AssetKind::Wav);
    assert_eq!(second.data, b"RIFF".to_vec());
    assert!(state.parse_archive(&bytes).is_none());
    let fourth = state.parse_archive(&bytes).unwrap();
    assert_eq!(fourth.name, "font");
    assert_eq!(fourth.kind, AssetKind::Ttf);
    assert_eq!(state.status, AssetsLoadingStatus::Parsing);
    assert!(state.parse_archive(&bytes).is_none());
    assert_eq!(state.status, AssetsLoadingStatus::Finished);
    assert_eq!(state.current_index, 4);
}

#[test]
fn unreadable_archive_fails_the_load() {
    let mut state = parsing();
    assert!(state.parse_archive(b"not an archive").is_none());
    assert_eq!(state.status, AssetsLoadingStatus::Error);
}

#[test]
fn empty_archive_finishes_at_once() {
    let bytes = archive(&[], &[]);
    let mut state = parsing();
    assert!(state.parse_archive(&bytes).is_none());
    assert_eq!(state.status, AssetsLoadingStatus::Finished);
}

#[test]
fn raw_assets_keep_their_fields() {
    let font = RawFont::new("pixel", "/fonts/pixel.ttf", &[1, 2, 3]);
    assert_eq!(font.name, "pixel");
    assert_eq!(font.path, "/fonts/pixel.ttf");
    assert_eq!(font.data, vec![1, 2, 3]);
    let sound = RawSound::new("jump", "/jump.wav", &[]);
    assert_eq!(sound.name, "jump");
    assert_eq!(sound.path, "/jump.wav");
    assert!(sound.data.is_empty());
}

#[test]
fn file_request_status() {
    assert_eq!(status_for_request(FileLoadingStatus::Finished, true), FileLoadingStatus::Finished);
    assert_eq!(status_for_request(FileLoadingStatus::Finished, false), FileLoadingStatus::Idle);
    assert_eq!(status_for_request(FileLoadingStatus::Error, false), FileLoadingStatus::Idle);
    assert_eq!(status_for_request(FileLoadingStatus::Error, true), FileLoadingStatus::Error);
    assert_eq!(status_for_request(FileLoadingStatus::Loading, false), FileLoadingStatus::Loading);
    assert_eq!(status_for_request(FileLoadingStatus::Idle, true), FileLoadingStatus::Idle);
    assert_eq!(FileLoadingStatus::default(), FileLoadingStatus::Idle);
}

#[test]
fn file_read_status() {
    assert_eq!(status_after_read(true), FileLoadingStatus::Finished);
    assert_eq!(status_after_read(false), FileLoadingStatus::Error);
}

use capybara::assets::texture::decode_texture;

fn png_bytes(width: u32, height: u32, color: png::ColorType, data: &[u8]) -> Vec<u8> {
    let mut bytes = Vec::new();
    {
        let mut encoder = png::Encoder::new(&mut bytes, width, height);
        encoder.set_color(color);
        encoder.set_depth(png::BitDepth::Eight);
        let mut writer = encoder.write_header().unwrap();
        writer.write_image_data(data).unwrap();
    }
    bytes
}

#[test]
fn png_is_decoded_to_its_pixels() {
    let pixels = [255, 0, 0, 255, 0, 255, 0, 128];
    let bytes = png_bytes(2, 1, png::ColorType::Rgba, &pixels);
    let image = decode_texture(&bytes).unwrap();
    assert_eq!(image.width, 2);
    assert_eq!(image.height, 1);
    assert_eq!(image.pixels, pixels.to_vec());
}

#[test]
fn grayscale_png_keeps_one_sample_per_pixel() {
    let bytes = png_bytes(1, 2, png::ColorType::Grayscale, &[10, 200]);
    let image = decode_texture(&bytes).unwrap();
    assert_eq!((image.width, image.height), (1, 2));
    assert_eq!(image.pixels, vec![10, 200]);
}

#[test]
fn garbage_is_no_png() {
    assert!(decode_texture(b"not a png").is_none());
    assert!(decode_texture(&[]).is_none());
}

#[test]
fn a_finished_read_is_kept_until_another_file_is_asked_for() {
    let mut state = FileState::new();
    let path = String::from("data.zip");
    assert!(state.request(&path));
    assert_eq!(state.complete(&path, ReadOutcome::Read(vec![1, 2, 3])), FileLoadingStatus::Finished);
    assert_eq!(state.input, "data.zip");
    assert_eq!(state.buffer, vec![1, 2, 3]);
    assert!(!state.request(&path));
    assert_eq!(state.status, FileLoadingStatus::Finished);
    assert_eq!(state.buffer, vec![1, 2, 3]);

    let other = String::from("other.zip");
    assert!(state.request(&other));
    assert_eq!(state.complete(&other, ReadOutcome::OpenFailed), FileLoadingStatus::Error);
    assert_eq!(state.input, "data.zip");
    assert_eq!(state.buffer, vec![1, 2, 3]);
    // A failed read keeps the path read before, so asking for the same file again retries.
    assert!(state.request(&other));
    assert_eq!(state.status, FileLoadingStatus::Idle);
    assert_eq!(state.complete(&other, ReadOutcome::OpenFailed), FileLoadingStatus::Error);

    let third = String::from("third.zip");
    assert!(state.request(&third));
    assert_eq!(state.complete(&third, ReadOutcome::ReadFailed(vec![9])), FileLoadingStatus::Error);
    assert_eq!(state.input, "data.zip");
    assert_eq!(state.buffer, vec![9]);
}
