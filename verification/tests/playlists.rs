use std::path::PathBuf;
use yume::player::playlist::handler::{
    decode, decode_outcome, decoded, is_admitted, DecodeError, EnumerationError, Handler, Parser,
    PlaylistError,
};
use yume::player::playlist::{read_dir, Entry, Playlist, Pos};
use yume::Rgba8Image;

struct Tile(u8);

impl Handler for Tile {
    fn handle(&self) -> Result<Rgba8Image, DecodeError> {
        Ok(Rgba8Image::from_raw(1, 1, vec![self.0, 0, 0, 255]).unwrap())
    }
}

struct Broken;

impl Handler for Broken {
    fn handle(&self) -> Result<Rgba8Image, DecodeError> {
        Err(DecodeError { message: String::from("not an image") })
    }
}

struct Shelf(Vec<u8>);

impl Parser for Shelf {
    fn parse(&self) -> Result<Vec<Box<dyn Handler>>, EnumerationError> {
        Ok(tiles(&self.0))
    }
}

struct Nowhere;

impl Parser for Nowhere {
    fn parse(&self) -> Result<Vec<Box<dyn Handler>>, EnumerationError> {
        Err(EnumerationError { message: String::from("no such place") })
    }
}

fn tiles(marks: &[u8]) -> Vec<Box<dyn Handler>> {
    let mut v: Vec<Box<dyn Handler>> = Vec::new();
    for m in marks {
        v.push(Box::new(Tile(*m)));
    }
    v
}

fn mark(p: &Playlist) -> Option<u8> {
    match p.current_image() {
        Ok(img) => Some(img.as_raw()[0]),
        Err(_) => None,
    }
}

#[test]
fn fresh_playlist_rests_on_first_source() {
    let p = Playlist::new(tiles(&[10, 20, 30]));
    assert_eq!(p.len(), 3);
    assert_eq!(p.position(), Pos::Normal(0));
    assert!(p.current().is_some());
    assert_eq!(mark(&p), Some(10));
}

#[test]
fn fresh_empty_playlist_rests_on_start() {
    let p = Playlist::new(Vec::new());
    assert_eq!(p.len(), 0);
    assert_eq!(p.position(), Pos::Start);
    assert!(p.current().is_none());
    assert_eq!(p.current_image(), Err(PlaylistError::NoCurrentItem));
}

#[test]
fn stepping_through_three_sources_ends_on_the_sentinel() {
    let mut p = Playlist::new(tiles(&[b'a', b'b', b'c']));
    assert_eq!(mark(&p), Some(b'a'));
    p.advance(1);
    assert_eq!(mark(&p), Some(b'b'));
    p.advance(1);
    assert_eq!(mark(&p), Some(b'c'));
    p.advance(1);
    assert_eq!(p.position(), Pos::End);
    assert!(p.current().is_none());
    assert_eq!(p.current_image(), Err(PlaylistError::NoCurrentItem));
    p.advance(1);
    assert_eq!(p.position(), Pos::End);
    p.advance(-1);
    assert_eq!(mark(&p), Some(b'c'));
}

#[test]
fn stepping_back_from_first_source_leaves_no_current() {
    let mut p = Playlist::new(tiles(&[1, 2]));
    p.advance(-1);
    assert_eq!(p.position(), Pos::Start);
    assert_eq!(p.current_image(), Err(PlaylistError::NoCurrentItem));
    p.advance(2);
    assert_eq!(p.position(), Pos::Normal(1));
    assert_eq!(mark(&p), Some(2));
}

#[test]
fn empty_playlist_takes_steps_without_a_current_source() {
    let mut p = Playlist::new(Vec::new());
    p.advance(-1);
    assert_eq!(p.position(), Pos::Start);
    assert!(p.current().is_none());
    p.advance(1);
    assert_eq!(p.position(), Pos::End);
    assert!(p.current().is_none());
    assert_eq!(p.current_image(), Err(PlaylistError::NoCurrentItem));
    p.advance(-1);
    assert_eq!(p.position(), Pos::Start);
    for d in [3isize, -2, 0, isize::MAX, isize::MIN] {
        p.advance(d);
        assert!(!p.position().is_normal());
        assert_eq!(p.current_image(), Err(PlaylistError::NoCurrentItem));
    }
}

#[test]
fn long_step_from_start_ends_on_the_sentinel() {
    let mut p = Playlist::new(tiles(&[1, 2, 3]));
    p.advance(-1);
    p.advance(5);
    assert_eq!(p.position(), Pos::End);
    assert!(p.current().is_none());
    assert_eq!(p.current_image(), Err(PlaylistError::NoCurrentItem));
    p.advance(-3);
    assert_eq!(p.position(), Pos::Normal(0));
    assert_eq!(mark(&p), Some(1));
}

#[test]
fn failure_of_the_current_source_is_handed_on() {
    let items: Vec<Box<dyn Handler>> = vec![Box::new(Broken), Box::new(Tile(7))];
    let mut p = Playlist::new(items);
    assert_eq!(
        p.current_image(),
        Err(PlaylistError::Decode(DecodeError { message: String::from("not an image") }))
    );
    p.advance(1);
    assert_eq!(mark(&p), Some(7));
}

#[test]
fn answer_of_a_source_becomes_answer_of_the_playlist() {
    let img = Rgba8Image::from_raw(1, 1, vec![1, 2, 3, 4]).unwrap();
    assert_eq!(decoded(Ok(img)), Ok(Rgba8Image::from_raw(1, 1, vec![1, 2, 3, 4]).unwrap()));
    let e = DecodeError { message: String::from("x") };
    assert_eq!(decoded(Err(e.clone())), Err(PlaylistError::Decode(e)));
}

#[test]
fn loading_replaces_the_sources_and_resets_the_cursor() {
    let mut p = Playlist::new(tiles(&[1, 2, 3]));
    p.advance(2);
    assert_eq!(p.load_path(&Shelf(vec![8, 9])), Ok(()));
    assert_eq!(p.len(), 2);
    assert_eq!(p.position(), Pos::Normal(0));
    assert_eq!(mark(&p), Some(8));
}

#[test]
fn loading_an_empty_place_rests_on_start() {
    let mut p = Playlist::new(tiles(&[1, 2, 3]));
    assert_eq!(p.load_path(&Shelf(Vec::new())), Ok(()));
    assert_eq!(p.len(), 0);
    assert_eq!(p.position(), Pos::Start);
    assert_eq!(p.current_image(), Err(PlaylistError::NoCurrentItem));
}

#[test]
fn failed_loading_leaves_the_playlist_untouched() {
    let mut p = Playlist::new(tiles(&[1, 2, 3]));
    p.advance(1);
    assert_eq!(
        p.load_path(&Nowhere),
        Err(EnumerationError { message: String::from("no such place") })
    );
    assert_eq!(p.len(), 3);
    assert_eq!(p.position(), Pos::Normal(1));
    assert_eq!(mark(&p), Some(2));
}

#[test]
fn replace_takes_either_outcome() {
    let mut p = Playlist::new(tiles(&[1]));
    assert_eq!(p.replace(Err(EnumerationError { message: String::from("e") })),
        Err(EnumerationError { message: String::from("e") }));
    assert_eq!(p.len(), 1);
    assert_eq!(p.replace(Ok(tiles(&[4, 5, 6, 7]))), Ok(()));
    assert_eq!(p.len(), 4);
    assert_eq!(mark(&p), Some(4));
}

fn ring(names: &[&str]) -> yume::playlist::Playlist {
    yume::playlist::Playlist::new(names.iter().map(PathBuf::from).collect())
}

#[test]
fn ring_starts_at_first_source() {
    let p = ring(&["a", "b", "c"]);
    assert_eq!(p.pos, 0);
    assert_eq!(p.current(), Some(&PathBuf::from("a")));
}

#[test]
fn ring_wraps_forward_past_the_last_source() {
    let mut p = ring(&["a", "b", "c"]);
    assert_eq!(p.current(), Some(&PathBuf::from("a")));
    p.advance(1);
    assert_eq!(p.current(), Some(&PathBuf::from("b")));
    p.advance(1);
    assert_eq!(p.current(), Some(&PathBuf::from("c")));
    p.advance(1);
    assert_eq!(p.pos, 0);
    assert_eq!(p.current(), Some(&PathBuf::from("a")));
}

#[test]
fn ring_wraps_backward_past_the_first_source() {
    let mut p = ring(&["a", "b", "c"]);
    p.advance(-1);
    assert_eq!(p.pos, 2);
    assert_eq!(p.current(), Some(&PathBuf::from("c")));
    p.advance(-4);
    assert_eq!(p.pos, 1);
    p.advance(-3);
    assert_eq!(p.pos, 1);
    p.advance(7);
    assert_eq!(p.pos, 2);
}

#[test]
fn ring_takes_extreme_steps() {
    let mut p = ring(&["a", "b", "c", "d", "e"]);
    p.advance(isize::MAX);
    assert_eq!(p.pos, (isize::MAX as usize) % 5);
    let mut q = ring(&["a", "b", "c", "d", "e"]);
    q.advance(isize::MIN);
    let back = ((1u128 << (usize::BITS - 1)) % 5) as usize;
    assert_eq!(q.pos, (5 - back) % 5);
    let mut r = ring(&["a", "b", "c"]);
    r.pos = usize::MAX;
    r.advance(1);
    assert_eq!(r.pos, ((usize::MAX as u128 + 1) % 3) as usize);
}

#[test]
fn empty_ring_has_no_current_source() {
    let mut p = ring(&[]);
    assert_eq!(p.current(), None);
    p.advance(1);
    assert_eq!(p.pos, 0);
    assert_eq!(p.current(), None);
    p.advance(-3);
    assert_eq!(p.pos, 0);
    let d = yume::playlist::Playlist::default();
    assert_eq!(d.pos, 0);
    assert!(d.sources.is_empty());
}

#[test]
fn ring_cursor_beyond_the_list_selects_nothing() {
    let mut p = ring(&["a", "b"]);
    p.pos = 2;
    assert_eq!(p.current(), None);
    p.advance(1);
    assert_eq!(p.pos, 1);
}

fn bitmap() -> Vec<u8> {
    let mut f: Vec<u8> = Vec::new();
    f.extend_from_slice(b"BM");
    f.extend_from_slice(&62u32.to_le_bytes());
    f.extend_from_slice(&0u32.to_le_bytes());
    f.extend_from_slice(&54u32.to_le_bytes());
    f.extend_from_slice(&40u32.to_le_bytes());
    f.extend_from_slice(&2i32.to_le_bytes());
    f.extend_from_slice(&1i32.to_le_bytes());
    f.extend_from_slice(&1u16.to_le_bytes());
    f.extend_from_slice(&24u16.to_le_bytes());
    f.extend_from_slice(&0u32.to_le_bytes());
    f.extend_from_slice(&8u32.to_le_bytes());
    f.extend_from_slice(&2835i32.to_le_bytes());
    f.extend_from_slice(&2835i32.to_le_bytes());
    f.extend_from_slice(&0u32.to_le_bytes());
    f.extend_from_slice(&0u32.to_le_bytes());
    f.extend_from_slice(&[1, 2, 3, 4, 5, 6, 0, 0]);
    f
}

#[test]
fn bitmap_decodes_to_rgba() {
    let img = decode(Some("bmp"), &bitmap()).unwrap();
    assert_eq!(img.dimensions(), (2, 1));
    assert_eq!(img.into_raw(), vec![3, 2, 1, 255, 6, 5, 4, 255]);
}

#[test]
fn format_goes_by_the_extension() {
    assert!(decode(Some("BMP"), &bitmap()).is_ok());
    assert!(decode(Some("png"), &bitmap()).is_err());
    assert!(decode(Some("jpg"), &bitmap()).is_err());
    assert!(decode(Some("gif"), &bitmap()).is_err());
}

#[test]
fn unknown_extension_names_no_format() {
    let none = DecodeError { message: String::from("file extension names no image format") };
    assert_eq!(decode(Some("unknown"), &bitmap()), Err(none.clone()));
    assert_eq!(decode(Some(""), &bitmap()), Err(none.clone()));
    assert_eq!(decode(Some("bmp2"), &bitmap()), Err(none.clone()));
    assert_eq!(decode(None, &bitmap()), Err(none));
}

#[test]
fn other_image_formats_are_not_decoded() {
    let other = DecodeError { message: String::from("image format is not decoded") };
    for ext in [
        "tiff", "tif", "TIFF", "webp", "avif", "tga", "dds", "ico", "hdr", "exr", "pbm", "pam",
        "ppm", "pgm", "ff", "farbfeld", "qoi", "Qoi",
    ] {
        assert_eq!(decode(Some(ext), &bitmap()), Err(other.clone()));
    }
}

fn lossless_frame(precision: u8, components: u8) -> Vec<u8> {
    let mut f: Vec<u8> = vec![0xFF, 0xD8, 0xFF, 0xC3];
    f.extend_from_slice(&(8 + 3 * components as u16).to_be_bytes());
    f.push(precision);
    f.extend_from_slice(&1u16.to_be_bytes());
    f.extend_from_slice(&1u16.to_be_bytes());
    f.push(components);
    for c in 0..components {
        f.extend_from_slice(&[c + 1, 0x11, 0]);
    }
    f
}

#[test]
fn lossless_frames_are_admitted_where_their_samples_fit() {
    assert!(is_admitted(&[]));
    assert!(is_admitted(&bitmap()));
    assert!(is_admitted(&[0xFF, 0xC3]));
    assert!(is_admitted(&[0xFF, 0xC3, 0, 11, 12, 0, 1, 0, 1]));
    assert!(is_admitted(&lossless_frame(8, 1)));
    assert!(is_admitted(&lossless_frame(8, 3)));
    assert!(is_admitted(&lossless_frame(8, 4)));
    assert!(is_admitted(&lossless_frame(9, 1)));
    assert!(is_admitted(&lossless_frame(12, 1)));
    assert!(is_admitted(&lossless_frame(16, 1)));
    assert!(!is_admitted(&lossless_frame(17, 1)));
    assert!(!is_admitted(&lossless_frame(7, 1)));
    assert!(!is_admitted(&lossless_frame(2, 1)));
    assert!(!is_admitted(&lossless_frame(12, 3)));
    assert!(!is_admitted(&lossless_frame(16, 3)));
    assert!(!is_admitted(&lossless_frame(12, 4)));
    assert!(!is_admitted(&[0xFF, 0xC3, 0, 11, 12, 0, 1, 0, 1, 3]));
    let mut late = bitmap();
    late.extend_from_slice(&lossless_frame(12, 3));
    assert!(!is_admitted(&late));
    let mut other = lossless_frame(12, 3);
    other[3] = 0xC0;
    assert!(is_admitted(&other));
}

#[test]
fn lossless_frame_that_does_not_fit_is_turned_down() {
    let unfit = DecodeError {
        message: String::from("lossless JPEG frame of a sample precision that is not decoded"),
    };
    assert_eq!(decode(Some("jpg"), &lossless_frame(12, 3)), Err(unfit.clone()));
    assert_eq!(decode(Some("JPEG"), &lossless_frame(5, 1)), Err(unfit.clone()));
    assert_eq!(decode(Some("jpeg"), &lossless_frame(12, 4)), Err(unfit.clone()));
    let e = decode(Some("jpg"), &lossless_frame(8, 1)).unwrap_err();
    assert!(e != unfit);
    assert!(decode(Some("png"), &lossless_frame(12, 3)).unwrap_err() != unfit);
}

#[test]
fn torn_file_does_not_decode() {
    let whole = bitmap();
    let e = decode(Some("bmp"), &whole[..30]).unwrap_err();
    assert!(!e.message.is_empty());
    assert!(e.message != "file extension names no image format");
    assert!(decode(Some("bmp"), &[]).is_err());
}

#[test]
fn work_of_the_decoder_becomes_the_answer_of_a_source() {
    assert_eq!(
        decode_outcome(Ok((1, 2, vec![7; 8]))),
        Ok(Rgba8Image::from_raw(1, 2, vec![7; 8]).unwrap())
    );
    assert_eq!(
        decode_outcome(Ok((1, 2, vec![7; 7]))),
        Err(DecodeError { message: String::from("pixel buffer does not fit the image size") })
    );
    assert_eq!(
        decode_outcome(Err(String::from("torn"))),
        Err(DecodeError { message: String::from("torn") })
    );
}

#[test]
fn raster_wants_four_bytes_a_pixel() {
    let raster = yume::player::playlist::handler::raster;
    assert_eq!(raster(1, 2, vec![7; 8]), Ok(Rgba8Image::from_raw(1, 2, vec![7; 8]).unwrap()));
    assert_eq!(
        raster(1, 2, vec![7; 7]),
        Err(DecodeError { message: String::from("pixel buffer does not fit the image size") })
    );
}

fn entry(path: &str, is_file: bool) -> Entry {
    Entry { path: PathBuf::from(path), is_file }
}

#[test]
fn only_files_of_a_walk_become_sources() {
    let walk = vec![
        entry("album", false),
        entry("album/a.png", true),
        entry("album/more", false),
        entry("album/more/b.png", true),
        entry("album/more/link", false),
        entry("album/z.jpg", true),
    ];
    let mut sources = Vec::new();
    read_dir(walk, &mut sources);
    assert_eq!(
        sources,
        vec![
            PathBuf::from("album/a.png"),
            PathBuf::from("album/more/b.png"),
            PathBuf::from("album/z.jpg"),
        ]
    );
}

#[test]
fn files_of_a_walk_come_after_the_sources_at_hand() {
    let mut sources = vec![PathBuf::from("first.png")];
    read_dir(vec![entry("one.png", true)], &mut sources);
    read_dir(Vec::new(), &mut sources);
    read_dir(vec![entry("dir", false)], &mut sources);
    read_dir(vec![entry("two.png", true), entry("one.png", true)], &mut sources);
    assert_eq!(
        sources,
        vec![
            PathBuf::from("first.png"),
            PathBuf::from("one.png"),
            PathBuf::from("two.png"),
            PathBuf::from("one.png"),
        ]
    );
}
