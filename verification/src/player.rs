//! The viewer's core: what each input does to the playlist and the viewport,
//! and what it leaves for the shell around it to draw.

use vstd::prelude::*;

pub mod playlist;
pub mod renderer;

use playlist::handler::{EnumerationError, Handler, PlaylistError, Playlist};
use playlist::Pos;
use renderer::texture::Rgba8Image;
use renderer::{wrapped_sum, Pan, Size, Viewport};

verus! {

/// The keys that the viewer is bound to.
#[derive(Debug, Clone, Copy, PartialEq, Eq, Structural)]
pub enum Key {
    Left,
    Right,
    S,
    H,
    L,
    J,
    K,
}

/// What a key asks of the viewer.
#[derive(Debug, Clone, Copy, PartialEq, Eq, Structural)]
pub enum Command {
    /// Move the playlist's cursor by so many steps.
    Advance(isize),
    /// Fit the image into the surface.
    ScaleToFit,
    /// Pan along the width by so many texture pixels.
    PanWidth(i32),
    /// Pan along the height by so many texture pixels.
    PanHeight(i32),
}

/// What is put on show: an image, and beside it the failure that left the
/// viewer without the image it asked for.
#[derive(Debug, PartialEq, Eq)]
pub struct Shown {
    pub image: Rgba8Image,
    /// Why the playlist gave no image; none where `image` is the image it
    /// gave.
    pub failure: Option<PlaylistError>,
}

/// What is left for the shell to do once the core has taken an input.
#[derive(Debug, PartialEq, Eq)]
pub enum Effect {
    /// Show this image: upload it, set the scale to one, then fit it into
    /// the surface without enlarging it. A failure that comes with it is to
    /// be reported.
    Show(Shown),
    /// Compute the transform anew: the pan has changed.
    Retransform,
    /// Set the scale to fit the image into the surface.
    ScaleToFit,
}

/// Why the surface gave no frame to draw on.
#[derive(Debug, Clone, Copy, PartialEq, Eq, Structural)]
pub enum SurfaceFailure {
    Timeout,
    Outdated,
    Lost,
    OutOfMemory,
}

/// How the viewer goes on after a frame that could not be drawn.
#[derive(Debug, Clone, Copy, PartialEq, Eq, Structural)]
pub enum Recovery {
    /// Configure the surface again at its current size; the next frame
    /// tries anew.
    Reconfigure,
    /// Note the failure and wait for the next frame.
    Wait,
    /// Give up and leave.
    Exit,
}

/// The command that each key is bound to: the arrows step through the
/// playlist, `S` fits, `H` and `L` pan along the width, `J` and `K` along the
/// height.
pub open spec fn binding(key: Key) -> Command {
    match key {
        Key::Left => Command::Advance((-1) as isize),
        Key::Right => Command::Advance(1),
        Key::S => Command::ScaleToFit,
        Key::H => Command::PanWidth((-1) as i32),
        Key::L => Command::PanWidth(1),
        Key::J => Command::PanHeight((-1) as i32),
        Key::K => Command::PanHeight(1),
    }
}

/// How to go on after each failure: a lost surface is configured again, a
/// surface out of memory ends the viewer, and the others pass by themselves.
pub open spec fn plan(failure: SurfaceFailure) -> Recovery {
    match failure {
        SurfaceFailure::Lost => Recovery::Reconfigure,
        SurfaceFailure::OutOfMemory => Recovery::Exit,
        SurfaceFailure::Timeout => Recovery::Wait,
        SurfaceFailure::Outdated => Recovery::Wait,
    }
}

/// The image is one blank pixel.
pub open spec fn blank(img: Rgba8Image) -> bool {
    img.columns() == 1 && img.rows() == 1 && img.bytes() == seq![0u8, 0u8, 0u8, 0u8]
}

/// What is shown for each answer of the playlist: the image it gave and no
/// failure, or one blank pixel and the failure it gave instead.
pub open spec fn shows(outcome: Result<Rgba8Image, PlaylistError>, shown: Shown) -> bool {
    match outcome {
        Ok(given) => shown.image == given && shown.failure is None,
        Err(e) => blank(shown.image) && shown.failure == Some(e),
    }
}

/// The command that a key is bound to.
pub fn command(key: Key) -> (r: Command)
    ensures
        r == binding(key),
{
    match key {
        Key::Left => Command::Advance(-1),
        Key::Right => Command::Advance(1),
        Key::S => Command::ScaleToFit,
        Key::H => Command::PanWidth(-1),
        Key::L => Command::PanWidth(1),
        Key::J => Command::PanHeight(-1),
        Key::K => Command::PanHeight(1),
    }
}

/// How to go on after a frame that could not be drawn.
pub fn recovery(failure: SurfaceFailure) -> (r: Recovery)
    ensures
        r == plan(failure),
{
    match failure {
        SurfaceFailure::Lost => Recovery::Reconfigure,
        SurfaceFailure::OutOfMemory => Recovery::Exit,
        SurfaceFailure::Timeout => Recovery::Wait,
        SurfaceFailure::Outdated => Recovery::Wait,
    }
}

/// What to show for an answer of the playlist. A failure does not stop the
/// viewer: one blank pixel stands in for the image, and the failure comes
/// out beside it.
pub fn image_or_placeholder(outcome: Result<Rgba8Image, PlaylistError>) -> (shown: Shown)
    ensures
        shows(outcome, shown),
{
    match outcome {
        Ok(image) => Shown { image, failure: None },
        Err(e) => Shown { image: Rgba8Image::placeholder(), failure: Some(e) },
    }
}

/// The playlist and the viewport that shows its current image.
pub struct Player {
    pub playlist: Playlist,
    pub viewport: Viewport,
}

impl Player {
    /// The viewport once `img` is on show: the surface as it was, the
    /// texture of the image's size, the pan at the origin.
    pub open spec fn showing(&self, img: Rgba8Image) -> Viewport {
        Viewport {
            size: self.viewport.size,
            texture: Size { width: img.columns(), height: img.rows() },
            pan: Pan { width: 0, height: 0 },
        }
    }

    /// What the playlist's answer makes of the viewer `self`: the viewer
    /// `after` it shows `shown`, which is what the answer calls for.
    pub open spec fn took(
        &self,
        outcome: Result<Rgba8Image, PlaylistError>,
        after: Player,
        shown: Shown,
    ) -> bool {
        &&& shows(outcome, shown)
        &&& after.viewport == self.showing(shown.image)
        &&& after.playlist == self.playlist
    }

    /// What the viewer `after` shows once it has asked the playlist of
    /// `self` for its current image: the playlist is as it was, the viewport
    /// shows the image handed out, and a failure comes with one blank pixel.
    /// That no source is current is the failure exactly where none is.
    pub open spec fn updated(&self, after: Player, shown: Shown) -> bool {
        &&& after.playlist == self.playlist
        &&& after.viewport == self.showing(shown.image)
        &&& shown.failure is Some ==> blank(shown.image)
        &&& self.playlist.current_index() is None <==> shown.failure == Some(
            PlaylistError::NoCurrentItem,
        )
    }

    /// A viewer over `playlist` on a surface of the given size, and what it
    /// shows first: the playlist's current image, or one blank pixel and the
    /// failure where the playlist has none to give.
    pub fn new(playlist: Playlist, size: Size) -> (r: (Self, Shown))
        ensures
            r.0.playlist == playlist,
            r.0.viewport == (Viewport {
                size,
                texture: Size { width: r.1.image.columns(), height: r.1.image.rows() },
                pan: Pan { width: 0, height: 0 },
            }),
            r.1.failure is Some ==> blank(r.1.image),
            playlist.current_index() is None <==> r.1.failure == Some(
                PlaylistError::NoCurrentItem,
            ),
    {
        let shown = image_or_placeholder(playlist.current_image());
        let (width, height) = shown.image.dimensions();
        let viewport = Viewport::new(size, Size { width, height });
        (Player { playlist, viewport }, shown)
    }

    /// The size of the surface.
    pub fn size(&self) -> (r: Size)
        ensures
            r == self.viewport.size,
    {
        self.viewport.surface_size()
    }

    /// Takes a new size for the surface; the shell configures the surface
    /// and sets the scale to one. A surface has no side of length zero: such
    /// a size is not taken.
    pub fn resize(&mut self, size: Size)
        requires
            size.width != 0,
            size.height != 0,
        ensures
            final(self).playlist == old(self).playlist,
            final(self).viewport == (Viewport { size, ..old(self).viewport }),
            final(self).viewport.size.width != 0 && final(self).viewport.size.height != 0,
    {
        self.viewport.resize(size);
    }

    /// Takes a new size for the surface where it has no side of length
    /// zero, and says whether it did; a size with such a side is turned
    /// down and changes nothing.
    pub fn try_resize(&mut self, size: Size) -> (taken: bool)
        ensures
            taken == (size.width != 0 && size.height != 0),
            final(self).playlist == old(self).playlist,
            final(self).viewport == old(self).viewport.resized(size),
    {
        self.viewport.try_resize(size)
    }

    /// Takes the playlist's answer to the question for its current image:
    /// the viewport is brought up to the image that the answer calls for,
    /// and image and failure are handed out to be shown and reported.
    pub fn show(&mut self, outcome: Result<Rgba8Image, PlaylistError>) -> (shown: Shown)
        ensures
            old(self).took(outcome, *final(self), shown),
    {
        let shown = image_or_placeholder(outcome);
        self.viewport.update_image(shown.image.dimensions());
        shown
    }

    /// Asks the playlist for its current image and takes the answer as
    /// `show` does. Where the playlist has none to give, one blank pixel is
    /// shown and the failure is handed out with it.
    pub fn update_image(&mut self) -> (shown: Shown)
        ensures
            old(self).updated(*final(self), shown),
    {
        let outcome = self.playlist.current_image();
        self.show(outcome)
    }

    /// What a command makes of the viewer `self`: the viewer `after` it and
    /// the effect handed out.
    ///
    /// A step moves the playlist's cursor and shows what the playlist then
    /// has to show. A pan moves the pan along one axis. A fit changes
    /// nothing in the core.
    pub open spec fn performed(&self, c: Command, after: Player, effect: Effect) -> bool {
        match c {
            Command::Advance(d) => {
                &&& effect matches Effect::Show(shown)
                &&& after.playlist.items() == self.playlist.items()
                &&& after.playlist.pos() == self.playlist.pos().stepped(
                    d as int,
                    self.playlist.items().len() as int,
                )
                &&& (Player { playlist: after.playlist, viewport: self.viewport }).updated(
                    after,
                    shown,
                )
            },
            Command::ScaleToFit => effect is ScaleToFit && after == *self,
            Command::PanWidth(v) => {
                &&& effect is Retransform
                &&& after.playlist == self.playlist
                &&& after.viewport == (Viewport {
                    pan: Pan {
                        width: wrapped_sum(self.viewport.pan.width, v),
                        height: self.viewport.pan.height,
                    },
                    ..self.viewport
                })
            },
            Command::PanHeight(v) => {
                &&& effect is Retransform
                &&& after.playlist == self.playlist
                &&& after.viewport == (Viewport {
                    pan: Pan {
                        width: self.viewport.pan.width,
                        height: wrapped_sum(self.viewport.pan.height, v),
                    },
                    ..self.viewport
                })
            },
        }
    }

    /// Carries out a command and says what is left to draw.
    pub fn perform(&mut self, c: Command) -> (r: Effect)
        ensures
            old(self).performed(c, *final(self), r),
    {
        match c {
            Command::Advance(d) => {
                self.playlist.advance(d);
                Effect::Show(self.update_image())
            },
            Command::ScaleToFit => Effect::ScaleToFit,
            Command::PanWidth(v) => {
                self.viewport.pan.increase_width(v);
                Effect::Retransform
            },
            Command::PanHeight(v) => {
                self.viewport.pan.increase_height(v);
                Effect::Retransform
            },
        }
    }

    /// Takes a key: carries out the command that the key is bound to.
    pub fn handle_key(&mut self, key: Key) -> (r: Effect)
        ensures
            old(self).performed(binding(key), *final(self), r),
    {
        self.perform(command(key))
    }

    /// Takes a drag of the pointer by `(dx, dy)`: the pan moves against it.
    pub fn handle_drag(&mut self, dx: i32, dy: i32) -> (r: Effect)
        ensures
            r is Retransform,
            final(self).playlist == old(self).playlist,
            final(self).viewport == (Viewport {
                pan: Pan {
                    width: wrapped_sum(old(self).viewport.pan.width, opposite(dx)),
                    height: wrapped_sum(old(self).viewport.pan.height, opposite(dy)),
                },
                ..old(self).viewport
            }),
    {
        self.viewport.pan.increase_width(negated(dx));
        self.viewport.pan.increase_height(negated(dy));
        Effect::Retransform
    }

    /// Takes the outcome of a search for the sources at a place dropped onto
    /// the window. A list replaces the playlist and its first image is
    /// shown; a failure is handed back and leaves the viewer as it was.
    pub fn handle_drop(&mut self, outcome: Result<Vec<Box<dyn Handler>>, EnumerationError>) -> (r:
        Result<Effect, EnumerationError>)
        ensures
            match outcome {
                Ok(items) => r matches Ok(Effect::Show(shown)) && final(self).playlist.items()
                    == items@ && final(self).playlist.pos() == playlist::handler::rest(
                    items@.len(),
                ) && (Player { playlist: final(self).playlist, viewport: old(self).viewport })
                    .updated(*final(self), shown),
                Err(e) => r == Err::<Effect, EnumerationError>(e) && *final(self) == *old(self),
            },
    {
        match outcome {
            Ok(items) => {
                self.playlist = Playlist::new(items);
                Ok(Effect::Show(self.update_image()))
            },
            Err(e) => Err(e),
        }
    }
}

/// The negative of an `i32`; that of the least value, which the type cannot
/// hold, is the greatest value.
pub open spec fn opposite(v: i32) -> i32 {
    if v == i32::MIN {
        i32::MAX
    } else {
        (-v) as i32
    }
}

/// The negative of an `i32`, kept within the type.
pub fn negated(v: i32) -> (r: i32)
    ensures
        r == opposite(v),
{
    if v == i32::MIN {
        i32::MAX
    } else {
        -v
    }
}

} // verus!
