//! A playlist of image sources, each of which can hand out its image, and the
//! decoding of image files into such images.

use super::Pos;
use crate::player::renderer::texture::{byte_len, Rgba8Image};
use vstd::prelude::*;

verus! {

/// Why a source gave no image.
#[derive(Debug, Clone, PartialEq, Eq)]
pub struct DecodeError {
    pub message: String,
}

/// Why a place gave no list of sources.
#[derive(Debug, Clone, PartialEq, Eq)]
pub struct EnumerationError {
    pub message: String,
}

/// Why a playlist gave no image.
#[derive(Debug, PartialEq, Eq)]
pub enum PlaylistError {
    /// The cursor selects no source.
    NoCurrentItem,
    /// The current source failed to hand out its image.
    Decode(DecodeError),
}

/// A source of one image.
pub trait Handler {
    fn handle(&self) -> Result<Rgba8Image, DecodeError>;
}

/// A place that can be searched for sources.
pub trait Parser {
    fn parse(&self) -> Result<Vec<Box<dyn Handler>>, EnumerationError>;
}

/// An ordered list of sources and a cursor over it. The cursor rests on a
/// sentinel or selects one of the sources.
pub struct Playlist {
    items: Vec<Box<dyn Handler>>,
    pos: Pos,
}

/// Where the cursor of a fresh list of `len` sources stands: on the first
/// source, or on `Start` where there is none.
pub open spec fn rest(len: nat) -> Pos {
    if len > 0 {
        Pos::Normal(0)
    } else {
        Pos::Start
    }
}

/// What a playlist answers when asked for its image, given what its current
/// source answered.
pub open spec fn image_outcome(outcome: Result<Rgba8Image, DecodeError>) -> Result<
    Rgba8Image,
    PlaylistError,
> {
    match outcome {
        Ok(img) => Ok(img),
        Err(e) => Err(PlaylistError::Decode(e)),
    }
}

impl Playlist {
    #[verifier::type_invariant]
    spec fn bounded(self) -> bool {
        self.pos.in_bounds(self.items@.len() as int)
    }

    /// The sources, in order.
    pub closed spec fn items(&self) -> Seq<Box<dyn Handler>> {
        self.items@
    }

    /// The cursor.
    pub closed spec fn pos(&self) -> Pos {
        self.pos
    }

    /// The cursor rests on a sentinel or selects one of the sources.
    pub open spec fn wf(&self) -> bool {
        self.pos().in_bounds(self.items().len() as int)
    }

    /// The index of the current source, if the cursor selects one.
    pub open spec fn current_index(&self) -> Option<int> {
        match self.pos() {
            Pos::Normal(i) if i < self.items().len() => Some(i as int),
            _ => None,
        }
    }

    /// A playlist of the given sources, its cursor at rest.
    pub fn new(items: Vec<Box<dyn Handler>>) -> (r: Self)
        ensures
            r.items() == items@,
            r.pos() == rest(items@.len()),
            r.wf(),
    {
        let pos = if items.len() == 0 {
            Pos::Start
        } else {
            Pos::Normal(0)
        };
        Self { items, pos }
    }

    /// How many sources the playlist holds.
    pub fn len(&self) -> (r: usize)
        ensures
            r == self.items().len(),
    {
        self.items.len()
    }

    /// The cursor.
    pub fn position(&self) -> (r: Pos)
        ensures
            r == self.pos(),
            self.wf(),
    {
        proof {
            use_type_invariant(self);
        }
        self.pos
    }

    /// The current source.
    pub fn current(&self) -> (r: Option<&Box<dyn Handler>>)
        ensures
            match self.current_index() {
                Some(i) => r == Some(&self.items()[i]),
                None => r is None,
            },
    {
        match self.pos.to_index() {
            Some(i) => if i < self.items.len() {
                Some(&self.items[i])
            } else {
                None
            },
            None => None,
        }
    }

    /// The image of the current source. What the source answers is the
    /// source's own matter; `image_outcome` says what becomes of each answer.
    pub fn current_image(&self) -> (r: Result<Rgba8Image, PlaylistError>)
        ensures
            self.current_index() is None <==> r matches Err(PlaylistError::NoCurrentItem),
    {
        match self.current() {
            Some(source) => decoded(source.handle()),
            None => Err(PlaylistError::NoCurrentItem),
        }
    }

    /// Moves the cursor by `d` steps, as `Pos::advance` does over the
    /// playlist's length. The cursor stays within the playlist: a step of
    /// zero leaves it where it is, and in an empty playlist it rests on a
    /// sentinel whatever the step.
    pub fn advance(&mut self, d: isize)
        ensures
            final(self).items() == old(self).items(),
            final(self).pos() == old(self).pos().stepped(
                d as int,
                old(self).items().len() as int,
            ),
            final(self).wf(),
            d == 0 ==> final(self).pos() == old(self).pos(),
            old(self).items().len() == 0 ==> !(final(self).pos() is Normal)
                && final(self).current_index() is None,
    {
        proof {
            use_type_invariant(&*self);
        }
        let len = self.items.len();
        let mut pos = self.pos;
        pos.advance(d, len);
        self.pos = pos;
    }

    /// Takes the outcome of a search for sources. A list replaces the
    /// playlist's own and the cursor goes to its rest; a failure is handed
    /// back and changes nothing.
    pub fn replace(&mut self, outcome: Result<Vec<Box<dyn Handler>>, EnumerationError>) -> (r:
        Result<(), EnumerationError>)
        ensures
            match outcome {
                Ok(items) => r is Ok && final(self).items() == items@ && final(self).pos() == rest(
                    items@.len(),
                ),
                Err(e) => r == Err::<(), EnumerationError>(e) && final(self).items() == old(
                    self,
                ).items() && final(self).pos() == old(self).pos(),
            },
            final(self).wf(),
    {
        proof {
            use_type_invariant(&*self);
        }
        match outcome {
            Ok(items) => {
                *self = Playlist::new(items);
                Ok(())
            },
            Err(e) => Err(e),
        }
    }

    /// Searches `p` for sources and takes the outcome as `replace` does.
    pub fn load_path<P: Parser>(&mut self, p: &P) -> (r: Result<(), EnumerationError>)
        ensures
            r is Ok ==> final(self).pos() == rest(final(self).items().len()),
            r is Err ==> final(self).items() == old(self).items() && final(self).pos() == old(
                self,
            ).pos(),
            final(self).wf(),
    {
        self.replace(p.parse())
    }
}

/// The file formats that the viewer decodes.
#[derive(Debug, Clone, Copy, PartialEq, Eq, Structural)]
pub enum Format {
    Png,
    Jpeg,
    Gif,
    Bmp,
}

/// What a file extension names: a format that the viewer decodes, or
/// another image format.
#[derive(Debug, Clone, Copy, PartialEq, Eq, Structural)]
pub enum FileFormat {
    Decoded(Format),
    Other,
}

/// What the decoder made of the bytes of a file: width, height and the
/// pixels as RGBA bytes, or a complaint in words.
pub type Loaded = Result<(u32, u32, Vec<u8>), String>;

/// A letter of the ASCII alphabet in lower case; any other character as it
/// is.
pub open spec fn lowered(c: char) -> char {
    if 'A' <= c && c <= 'Z' {
        ((c as u8 + 32) as u8) as char
    } else {
        c
    }
}

/// The format that a file extension names, whatever the case of its
/// letters; none where it names no image format.
pub open spec fn extension_format(extension: Seq<char>) -> Option<FileFormat> {
    let e = extension.map_values(|c: char| lowered(c));
    if e == "png"@ {
        Some(FileFormat::Decoded(Format::Png))
    } else if e == "jpg"@ || e == "jpeg"@ {
        Some(FileFormat::Decoded(Format::Jpeg))
    } else if e == "gif"@ {
        Some(FileFormat::Decoded(Format::Gif))
    } else if e == "bmp"@ {
        Some(FileFormat::Decoded(Format::Bmp))
    } else if e == "avif"@ || e == "webp"@ || e == "tif"@ || e == "tiff"@ || e == "tga"@ || e
        == "dds"@ || e == "ico"@ || e == "hdr"@ || e == "exr"@ || e == "pbm"@ || e == "pam"@ || e
        == "ppm"@ || e == "pgm"@ || e == "ff"@ || e == "farbfeld"@ || e == "qoi"@ {
        Some(FileFormat::Other)
    } else {
        None
    }
}

/// What `image::load_from_memory_with_format` makes of the bytes of a file
/// of the given format, as RGBA: width, height and bytes, or the decoder's
/// complaint in words.
pub uninterp spec fn named_pixels(bytes: Seq<u8>, format: Format) -> Result<
    (u32, u32, Seq<u8>),
    Seq<char>,
>;

/// `image::ImageFormat::from_extension`: the format that a file extension
/// names, whatever the case of its letters, as `extension_format` lists
/// them.
#[verifier::external_body]
fn format_of(extension: &str) -> (r: Option<FileFormat>)
    ensures
        r == extension_format(extension@),
{
    match image::ImageFormat::from_extension(extension) {
        Some(image::ImageFormat::Png) => Some(FileFormat::Decoded(Format::Png)),
        Some(image::ImageFormat::Jpeg) => Some(FileFormat::Decoded(Format::Jpeg)),
        Some(image::ImageFormat::Gif) => Some(FileFormat::Decoded(Format::Gif)),
        Some(image::ImageFormat::Bmp) => Some(FileFormat::Decoded(Format::Bmp)),
        Some(_) => Some(FileFormat::Other),
        None => None,
    }
}

/// `image::load_from_memory_with_format`: the image that the bytes of a file
/// of the given format hold, handed out through `to_rgba8` as width, height
/// and RGBA bytes, or the decoder's error in words. The result is
/// `named_pixels` of bytes and format, and a buffer that comes out holds
/// four bytes for each pixel. Left out are the bytes of a JPEG file with a
/// lossless frame whose samples do not fit: from such a frame the decoder
/// gets more bytes than the frame's header announces, and the call does not
/// return.
#[verifier::external_body]
fn load(bytes: &[u8], format: Format) -> (r: Loaded)
    requires
        format == Format::Jpeg ==> admitted(bytes@),
    ensures
        outcome_view(r) == named_pixels(bytes@, format),
        r matches Ok(p) ==> p.2@.len() == byte_len(p.0, p.1),
{
    let format = match format {
        Format::Png => image::ImageFormat::Png,
        Format::Jpeg => image::ImageFormat::Jpeg,
        Format::Gif => image::ImageFormat::Gif,
        Format::Bmp => image::ImageFormat::Bmp,
    };
    match image::load_from_memory_with_format(bytes, format) {
        Ok(img) => {
            let buffer = img.to_rgba8();
            Ok((buffer.width(), buffer.height(), buffer.into_raw()))
        },
        Err(e) => Err(e.to_string()),
    }
}

/// At place `i` of `bytes` stand the marker of a lossless JPEG frame and the
/// eight bytes of its header that give the length of the header, the
/// precision of the samples, the size of the image and the number of its
/// components.
pub open spec fn lossless_frame_at(bytes: Seq<u8>, i: int) -> bool {
    0 <= i && i + 9 < bytes.len() && bytes[i] == 0xFF && bytes[i + 1] == 0xC3
}

/// A lossless frame of this precision and number of components decodes to
/// as many bytes as its header says: samples of eight bits, or one
/// component of nine to sixteen bits.
pub open spec fn fits(precision: u8, components: u8) -> bool {
    precision == 8 || (components == 1 && 9 <= precision <= 16)
}

/// Nowhere in the bytes stands the header of a lossless JPEG frame whose
/// samples do not fit.
pub open spec fn admitted(bytes: Seq<u8>) -> bool {
    forall|i: int| #[trigger]
        lossless_frame_at(bytes, i) ==> fits(bytes[i + 4], bytes[i + 9])
}

/// Looks through the bytes for the header of a lossless JPEG frame whose
/// samples do not fit, and says whether there is none.
pub fn is_admitted(bytes: &[u8]) -> (r: bool)
    ensures
        r == admitted(bytes@),
{
    let n: usize = bytes.len();
    let mut i: usize = 0;
    while i < n && n - i > 9
        invariant
            n == bytes@.len(),
            forall|j: int|
                j < i && #[trigger] lossless_frame_at(bytes@, j) ==> fits(
                    bytes@[j + 4],
                    bytes@[j + 9],
                ),
        decreases n - i,
    {
        if bytes[i] == 0xFF && bytes[i + 1] == 0xC3 {
            let precision: u8 = bytes[i + 4];
            let components: u8 = bytes[i + 9];
            if !(precision == 8 || (components == 1 && 9 <= precision && precision <= 16)) {
                assert(lossless_frame_at(bytes@, i as int));
                return false;
            }
        }
        i = i + 1;
    }
    true
}

/// What the decoder made of a file, as plain values.
pub open spec fn outcome_view(loaded: Loaded) -> Result<(u32, u32, Seq<u8>), Seq<char>> {
    match loaded {
        Ok(p) => Ok((p.0, p.1, p.2@)),
        Err(m) => Err(m@),
    }
}

/// What is said of a pixel buffer that does not fit its width and height.
pub open spec fn missized() -> Seq<char> {
    "pixel buffer does not fit the image size"@
}

/// What is said of a file whose extension names no image format.
pub open spec fn unrecognised() -> Seq<char> {
    "file extension names no image format"@
}

/// What is said of a file in an image format that the viewer does not
/// decode.
pub open spec fn undecoded() -> Seq<char> {
    "image format is not decoded"@
}

/// What is said of a JPEG file with a lossless frame whose samples do not
/// fit.
pub open spec fn unfit() -> Seq<char> {
    "lossless JPEG frame of a sample precision that is not decoded"@
}

/// What is made of the bytes of a file with the given extension: a
/// complaint where there is no extension, where it names no image format or
/// one that the viewer does not decode, or where a JPEG file holds a
/// lossless frame that does not fit; else what the decoder finds in the
/// bytes.
pub open spec fn decoding(extension: Option<Seq<char>>, bytes: Seq<u8>) -> Result<
    (u32, u32, Seq<u8>),
    Seq<char>,
> {
    match extension {
        Some(ext) => match extension_format(ext) {
            Some(FileFormat::Decoded(format)) => if format == Format::Jpeg && !admitted(bytes) {
                Err(unfit())
            } else {
                named_pixels(bytes, format)
            },
            Some(FileFormat::Other) => Err(undecoded()),
            None => Err(unrecognised()),
        },
        None => Err(unrecognised()),
    }
}

/// The answer `r` is what becomes of `made`, the work done on a file: the
/// image of the size and bytes that it gave, where they fit; else an error,
/// with the complaint where one was made.
pub open spec fn yields(
    made: Result<(u32, u32, Seq<u8>), Seq<char>>,
    r: Result<Rgba8Image, DecodeError>,
) -> bool {
    match made {
        Err(m) => r matches Err(e) && e.message@ == m,
        Ok(p) => if p.2.len() == byte_len(p.0, p.1) {
            r matches Ok(img) && img.columns() == p.0 && img.rows() == p.1 && img.bytes() == p.2
        } else {
            r matches Err(e) && e.message@ == missized()
        },
    }
}

/// The image of the given size over the given bytes, or an error where the
/// bytes are not four for each pixel.
pub fn raster(width: u32, height: u32, raw: Vec<u8>) -> (r: Result<Rgba8Image, DecodeError>)
    ensures
        r is Ok <==> raw@.len() == byte_len(width, height),
        r matches Ok(img) ==> img.columns() == width && img.rows() == height && img.bytes()
            == raw@,
        r matches Err(e) ==> e.message@ == missized(),
{
    match Rgba8Image::from_raw(width, height, raw) {
        Some(img) => Ok(img),
        None => Err(
            DecodeError { message: "pixel buffer does not fit the image size".to_owned() },
        ),
    }
}

/// Turns the work done on a file into the answer of a source.
pub fn decode_outcome(made: Loaded) -> (r: Result<Rgba8Image, DecodeError>)
    ensures
        yields(outcome_view(made), r),
{
    match made {
        Ok((width, height, raw)) => raster(width, height, raw),
        Err(message) => Err(DecodeError { message }),
    }
}

/// Decodes the bytes of an image file, whose format goes by the extension
/// of its name. The image is the one that the decoder finds in the bytes;
/// there is none where the extension is missing or names no format that
/// the viewer decodes, where a JPEG file holds a lossless frame that does
/// not fit, or where the decoder fails.
pub fn decode(extension: Option<&str>, bytes: &[u8]) -> (r: Result<Rgba8Image, DecodeError>)
    ensures
        yields(
            decoding(
                match extension {
                    Some(ext) => Some(ext@),
                    None => None,
                },
                bytes@,
            ),
            r,
        ),
        r is Ok <==> decoding(
            match extension {
                Some(ext) => Some(ext@),
                None => None,
            },
            bytes@,
        ) is Ok,
{
    let named = match extension {
        Some(ext) => format_of(ext),
        None => None,
    };
    let made: Loaded = match named {
        Some(FileFormat::Decoded(format)) => {
            if matches!(format, Format::Jpeg) && !is_admitted(bytes) {
                Err("lossless JPEG frame of a sample precision that is not decoded".to_owned())
            } else {
                load(bytes, format)
            }
        },
        Some(FileFormat::Other) => Err("image format is not decoded".to_owned()),
        None => Err("file extension names no image format".to_owned()),
    };
    decode_outcome(made)
}

/// Turns the answer of a source into the answer of the playlist.
pub fn decoded(outcome: Result<Rgba8Image, DecodeError>) -> (r: Result<Rgba8Image, PlaylistError>)
    ensures
        r == image_outcome(outcome),
{
    match outcome {
        Ok(img) => Ok(img),
        Err(e) => Err(PlaylistError::Decode(e)),
    }
}

} // verus!
