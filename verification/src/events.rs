//! How input events change what the viewer shows.
//!
//! The viewer keeps two flags, whether it is to quit and whether the frame
//! on screen is stale, and a camera that the caller holds. An event may set
//! either flag and may ask for a move of the camera.

use vstd::prelude::*;

verus! {

/// What the window system reports, as far as the viewer reads it.
#[derive(Debug)]
pub enum Event {
    /// The window was asked to close.
    Quit,
    /// A key went down; `key` is the name of the key where it has one.
    KeyDown { key: Option<String> },
    /// The pointer moved by `xrel` and `yrel` pixels; `left` tells whether
    /// the left button was held.
    MouseMotion { left: bool, xrel: i32, yrel: i32 },
    /// The wheel turned by `y` notches, away from the user where positive.
    MouseWheel { y: i32 },
    /// The size of the window changed.
    SizeChanged,
    /// Anything else.
    Other,
}

/// A move of the camera that an event asks for.
#[derive(Clone, Copy, Debug, PartialEq, Eq, Structural)]
pub enum CameraMove {
    /// The camera stays where it is.
    Stay,
    /// The picture is dragged by `dx` and `dy` pixels of the window, whose
    /// y axis points down.
    Pan { dx: i32, dy: i32 },
    /// One notch closer.
    ZoomIn,
    /// One notch farther.
    ZoomOut,
}

/// The move of the camera that an event asks for: a drag with the left
/// button pans, the wheel zooms.
pub open spec fn camera_move(event: Event) -> CameraMove {
    match event {
        Event::MouseMotion { left, xrel, yrel } => if left {
            CameraMove::Pan { dx: xrel, dy: yrel }
        } else {
            CameraMove::Stay
        },
        Event::MouseWheel { y } => if y > 0 {
            CameraMove::ZoomIn
        } else if y < 0 {
            CameraMove::ZoomOut
        } else {
            CameraMove::Stay
        },
        _ => CameraMove::Stay,
    }
}

/// Whether an event ends the viewer: a request to close, or the Escape key.
pub open spec fn quits(event: Event) -> bool {
    ||| event is Quit
    ||| event matches Event::KeyDown { key: Some(name) } && name@ == "Escape"@
}

/// Whether an event makes the frame on screen stale: it moves the camera
/// or changes the size of the window.
pub open spec fn stales(event: Event) -> bool {
    camera_move(event) != CameraMove::Stay || event is SizeChanged
}

/// The flags of the viewer's main loop.
#[derive(Clone, Copy, Debug, PartialEq, Eq, Structural)]
pub struct Viewer {
    /// The loop is to end.
    pub should_quit: bool,
    /// The frame on screen is stale and is to be drawn again.
    pub should_redraw: bool,
}

impl Viewer {
    /// A viewer that has yet to draw its first frame.
    pub fn new() -> (viewer: Viewer)
        ensures
            viewer == (Viewer { should_quit: false, should_redraw: true }),
    {
        Viewer { should_quit: false, should_redraw: true }
    }

    /// Takes note of an event and returns the move of the camera that it
    /// asks for. A flag that is set stays set.
    pub fn handle_event(&mut self, event: &Event) -> (camera: CameraMove)
        ensures
            camera == camera_move(*event),
            final(self).should_quit == (old(self).should_quit || quits(*event)),
            final(self).should_redraw == (old(self).should_redraw || stales(*event)),
    {
        match event {
            Event::Quit => {
                self.should_quit = true;
                CameraMove::Stay
            },
            Event::KeyDown { key } => {
                if let Some(name) = key {
                    if *name == String::from_str("Escape") {
                        self.should_quit = true;
                    }
                }
                CameraMove::Stay
            },
            Event::MouseMotion { left, xrel, yrel } => {
                if *left {
                    self.should_redraw = true;
                    CameraMove::Pan { dx: *xrel, dy: *yrel }
                } else {
                    CameraMove::Stay
                }
            },
            Event::MouseWheel { y } => {
                if *y > 0 {
                    self.should_redraw = true;
                    CameraMove::ZoomIn
                } else if *y < 0 {
                    self.should_redraw = true;
                    CameraMove::ZoomOut
                } else {
                    CameraMove::Stay
                }
            },
            Event::SizeChanged => {
                self.should_redraw = true;
                CameraMove::Stay
            },
            Event::Other => CameraMove::Stay,
        }
    }

    /// Tells whether a frame is to be drawn now, and takes the frame as
    /// drawn: the flag is cleared.
    pub fn take_redraw(&mut self) -> (draw: bool)
        ensures
            draw == old(self).should_redraw,
            *final(self) == (Viewer { should_redraw: false, ..*old(self) }),
    {
        let draw = self.should_redraw;
        self.should_redraw = false;
        draw
    }
}

} // verus!
