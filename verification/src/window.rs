//! Window state: the capability surface the engine mutates, and one state
//! record per platform backend.
//!
//! Platform window creation is the embedding shell's work: the shell opens
//! the real window (or binds the real canvas) and keeps it in step with the
//! state recorded here — it pushes title changes out after each tick and
//! pumps the platform's input events so the window stays live. The core
//! reads and writes only this state.

use vstd::prelude::*;
use crate::renderer::SurfaceManager;

verus! {

/// A capability-set interface over window backends: what the engine may
/// read (title, extent) and do (retitle, poll) of whichever backend the
/// build composed in.
pub trait InnerWindow: Sized {
    /// The window's current title.
    spec fn title_view(&self) -> Seq<char>;

    /// The window's extent in texels.
    spec fn size_view(&self) -> (u32, u32);

    /// The canvas the window is bound to, where the backend has one.
    spec fn canvas_view(&self) -> Option<Seq<char>>;

    fn set_title(&mut self, title: String)
        ensures
            final(self).title_view() == title@,
            final(self).size_view() == old(self).size_view(),
            final(self).canvas_view() == old(self).canvas_view(),
    ;

    fn size(&self) -> (s: (u32, u32))
        ensures
            s == self.size_view(),
    ;

    /// Consumes whatever platform input events are pending, discarding
    /// them; the window state is never altered by polling.
    fn poll_events(&mut self)
        ensures
            *final(self) == *old(self),
    ;
}

/// The native window's state: its title and its extent. The shell opens
/// the real window 800 by 600, centered and resizable, and owns the event
/// pump; this record is what the engine reads of it.
#[derive(Debug)]
pub struct SdlWindow {
    pub title: String,
    pub size: (u32, u32),
}

impl SdlWindow {
    /// A native window's state as created: the given title, 800 by 600.
    pub fn new(title: String) -> (w: Self)
        ensures
            w.title@ == title@,
            w.size == (800u32, 600u32),
    {
        SdlWindow { title, size: (800, 600) }
    }
}

impl InnerWindow for SdlWindow {
    open spec fn title_view(&self) -> Seq<char> {
        self.title@
    }

    open spec fn size_view(&self) -> (u32, u32) {
        self.size
    }

    /// A native window draws into its own surface, never a canvas.
    open spec fn canvas_view(&self) -> Option<Seq<char>> {
        None
    }

    fn set_title(&mut self, title: String)
        ensures
            final(self).title_view() == title@,
            final(self).size_view() == old(self).size_view(),
            final(self).canvas_view() == old(self).canvas_view(),
    {
        self.title = title;
    }

    fn size(&self) -> (s: (u32, u32))
        ensures
            s == self.size_view(),
    {
        self.size
    }

    fn poll_events(&mut self)
        ensures
            *final(self) == *old(self),
    {
    }
}

/// The browser window's state: the canvas it is bound to, if any, and a
/// title. The hosting page sizes the canvas, so this record reports a zero
/// extent — the deliberate "not tracked here" signal, which the surface
/// configuration clamps away.
#[derive(Debug)]
pub struct WebWindow {
    pub canvas_id: Option<String>,
    pub title: String,
}

impl WebWindow {
    /// A browser window's state as created: the given title, no canvas yet.
    pub fn new(title: String) -> (w: Self)
        ensures
            w.title@ == title@,
            w.canvas_id is None,
    {
        WebWindow { canvas_id: None, title }
    }

    /// Binds the window to a canvas by its element id.
    pub fn set_canvas_id(&mut self, canvas_id: String)
        ensures
            final(self).canvas_id is Some,
            final(self).canvas_id->0@ == canvas_id@,
            final(self).title == old(self).title,
    {
        self.canvas_id = Some(canvas_id);
    }
}

impl InnerWindow for WebWindow {
    open spec fn title_view(&self) -> Seq<char> {
        self.title@
    }

    open spec fn size_view(&self) -> (u32, u32) {
        (0u32, 0u32)
    }

    open spec fn canvas_view(&self) -> Option<Seq<char>> {
        match self.canvas_id {
            Some(id) => Some(id@),
            None => None,
        }
    }

    fn set_title(&mut self, title: String)
        ensures
            final(self).title_view() == title@,
            final(self).size_view() == old(self).size_view(),
            final(self).canvas_view() == old(self).canvas_view(),
    {
        self.title = title;
    }

    fn size(&self) -> (s: (u32, u32))
        ensures
            s == self.size_view(),
    {
        (0, 0)
    }

    fn poll_events(&mut self)
        ensures
            *final(self) == *old(self),
    {
    }
}

/// The engine's window: the composed-in backend state and, once graphics
/// are initialized, the window's surface manager.
pub struct GameWindow {
    pub inner: SdlWindow,
    pub surface_manager: Option<SurfaceManager>,
}

impl GameWindow {
    /// A fresh window with the given title and no surface manager yet.
    pub fn new(title: String) -> (w: Self)
        ensures
            w.inner.title_view() == title@,
            w.inner.size_view() == (800u32, 600u32),
            w.surface_manager is None,
    {
        GameWindow { inner: SdlWindow::new(title), surface_manager: None }
    }

    /// Polls the platform events through the backend; never alters state.
    pub fn poll_events(&mut self)
        ensures
            *final(self) == *old(self),
    {
        self.inner.poll_events();
    }
}

} // verus!
