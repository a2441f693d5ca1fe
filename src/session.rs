use vstd::prelude::*;

use crate::bitmap::{readback_header, readback_header_of, InfoHeader};
use crate::capture::{exclusive_fullscreen, CaptureError, Rect, Screenshoter};

verus! {

/// A device resource that a capture holds while it runs.
#[derive(Debug, Clone, Copy, PartialEq, Eq, Structural)]
pub enum Resource {
    /// The drawing surface of the window or of the desktop.
    SourceSurface,
    /// The memory surface the region is copied into.
    MemorySurface,
    /// The bitmap that backs the memory surface.
    Bitmap,
    /// The bitmap's selection into the memory surface.
    Selection,
}

/// Where a capture stands.
#[derive(Debug, Clone, Copy, PartialEq, Eq, Structural)]
pub enum CaptureStage {
    Locate,
    Inspect,
    AcquireSurface,
    CreateMemorySurface,
    CreateBitmap,
    SelectBitmap,
    CopyRegion,
    QueryHeader,
    SizeReadback,
    ReadPixels,
    Release,
    Done,
}

/// What the platform reports after carrying out an action.
#[derive(Debug, Clone, Copy, PartialEq, Eq, Structural)]
pub enum CaptureEvent {
    /// The window was looked up by title; `true` when it was found.
    Located(bool),
    /// The window's client rectangle, the desktop's rectangle and the
    /// window's style bits.
    Inspected { client: Rect, desktop: Rect, style: usize },
    /// A surface, bitmap, selection or copy was made; `true` on success.
    Done(bool),
    /// The device's description of the copied bitmap, if it gave one.
    HeaderQueried(Option<InfoHeader>),
    /// A resource was released.
    Released,
}

/// What the platform is to do next.
#[derive(Debug, Clone, Copy)]
pub enum CaptureAction {
    FindWindow,
    InspectWindow,
    /// Acquire the drawing surface of the desktop, or else of the window.
    AcquireSurface { desktop: bool },
    CreateMemorySurface,
    CreateBitmap,
    SelectBitmap,
    CopyRegion,
    QueryHeader,
    /// Ask the device how large the pixels are when read back with this
    /// header; it reports the header with the size filled in.
    SizeReadback(InfoHeader),
    /// Read the copied pixels back as described by the header.
    ReadPixels(InfoHeader),
    Release(Resource),
    /// The capture is over: the header the pixels were read with, or why
    /// there are none. Every resource has been released.
    Finish(Result<InfoHeader, CaptureError>),
}

/// The order in which a capture acquires resources.
pub open spec fn acquisition_order() -> Seq<Resource> {
    seq![Resource::SourceSurface, Resource::MemorySurface, Resource::Bitmap, Resource::Selection]
}

/// How many resources are held while at `stage`, before it completes.
pub open spec fn held_at(stage: CaptureStage) -> nat {
    match stage {
        CaptureStage::Locate | CaptureStage::Inspect | CaptureStage::AcquireSurface => 0,
        CaptureStage::CreateMemorySurface => 1,
        CaptureStage::CreateBitmap => 2,
        CaptureStage::SelectBitmap => 3,
        _ => 4,
    }
}

/// The error reported when the step at `stage` fails.
pub open spec fn stage_error(stage: CaptureStage) -> CaptureError {
    match stage {
        CaptureStage::Locate => CaptureError::WindowNotFound,
        CaptureStage::AcquireSurface => CaptureError::NoDrawingSurface,
        CaptureStage::CreateMemorySurface => CaptureError::NoCompatibleSurface,
        CaptureStage::CreateBitmap | CaptureStage::SelectBitmap => CaptureError::NoCompatibleBitmap,
        _ => CaptureError::ReadbackFailed,
    }
}

/// The header to read pixels with: the one asked for, with the image size
/// that the device reported for it.
pub open spec fn sized_header(asked: InfoHeader, reported: InfoHeader) -> InfoHeader {
    InfoHeader { size_image: reported.size_image, ..asked }
}

/// Mathematical model of a [`CaptureSession`].
pub struct SessionView {
    pub stage: CaptureStage,
    pub held: Seq<Resource>,
    pub header: Option<InfoHeader>,
    pub outcome: Option<Result<InfoHeader, CaptureError>>,
}

impl SessionView {
    /// Resources are held in acquisition order; an outcome exists exactly
    /// once the capture is releasing or done, and nothing is held when done.
    pub open spec fn wf(self) -> bool {
        &&& self.held.len() <= 4
        &&& self.held == acquisition_order().take(self.held.len() as int)
        &&& match self.stage {
            CaptureStage::Release => self.outcome.is_some(),
            CaptureStage::Done => self.outcome.is_some() && self.held.len() == 0,
            CaptureStage::SizeReadback | CaptureStage::ReadPixels => self.outcome.is_none() && self.held.len() == 4
                && self.header.is_some(),
            _ => self.outcome.is_none() && self.held.len() == held_at(self.stage),
        }
    }

    /// Whether `e` answers the action this session asked for last.
    pub open spec fn accepts(self, e: CaptureEvent) -> bool {
        match (self.stage, e) {
            (CaptureStage::Locate, CaptureEvent::Located(_)) => true,
            (CaptureStage::Inspect, CaptureEvent::Inspected { .. }) => true,
            (CaptureStage::AcquireSurface, CaptureEvent::Done(_)) => true,
            (CaptureStage::CreateMemorySurface, CaptureEvent::Done(_)) => true,
            (CaptureStage::CreateBitmap, CaptureEvent::Done(_)) => true,
            (CaptureStage::SelectBitmap, CaptureEvent::Done(_)) => true,
            (CaptureStage::CopyRegion, CaptureEvent::Done(_)) => true,
            (CaptureStage::QueryHeader, CaptureEvent::HeaderQueried(_)) => true,
            (CaptureStage::SizeReadback, CaptureEvent::HeaderQueried(_)) => true,
            (CaptureStage::ReadPixels, CaptureEvent::Done(_)) => true,
            (CaptureStage::Release, CaptureEvent::Released) => true,
            _ => false,
        }
    }

    /// Stops with `outcome`: releases the newest resource still held, or
    /// finishes when none is.
    pub open spec fn unwind(self, outcome: Result<InfoHeader, CaptureError>) -> (SessionView, CaptureAction) {
        if self.held.len() == 0 {
            (
                SessionView { stage: CaptureStage::Done, outcome: Some(outcome), ..self },
                CaptureAction::Finish(outcome),
            )
        } else {
            (
                SessionView {
                    stage: CaptureStage::Release,
                    held: self.held.drop_last(),
                    outcome: Some(outcome),
                    ..self
                },
                CaptureAction::Release(self.held.last()),
            )
        }
    }

    /// Goes on to `stage`, holding one more resource, `r`, when given.
    pub open spec fn advance(self, stage: CaptureStage, r: Option<Resource>, a: CaptureAction) -> (SessionView, CaptureAction) {
        let held = match r {
            Some(r) => self.held.push(r),
            None => self.held,
        };
        (SessionView { stage, held, ..self }, a)
    }

    /// The next state and action after event `e`.
    pub open spec fn step(self, e: CaptureEvent) -> (SessionView, CaptureAction) {
        let fail = self.unwind(Err(stage_error(self.stage)));
        match (self.stage, e) {
            (CaptureStage::Locate, CaptureEvent::Located(found)) => if found {
                self.advance(CaptureStage::Inspect, None, CaptureAction::InspectWindow)
            } else {
                fail
            },
            (CaptureStage::Inspect, CaptureEvent::Inspected { client, desktop, style }) => self.advance(
                CaptureStage::AcquireSurface,
                None,
                CaptureAction::AcquireSurface { desktop: exclusive_fullscreen(client, desktop, style) },
            ),
            (CaptureStage::AcquireSurface, CaptureEvent::Done(ok)) => if ok {
                self.advance(CaptureStage::CreateMemorySurface, Some(Resource::SourceSurface), CaptureAction::CreateMemorySurface)
            } else {
                fail
            },
            (CaptureStage::CreateMemorySurface, CaptureEvent::Done(ok)) => if ok {
                self.advance(CaptureStage::CreateBitmap, Some(Resource::MemorySurface), CaptureAction::CreateBitmap)
            } else {
                fail
            },
            (CaptureStage::CreateBitmap, CaptureEvent::Done(ok)) => if ok {
                self.advance(CaptureStage::SelectBitmap, Some(Resource::Bitmap), CaptureAction::SelectBitmap)
            } else {
                fail
            },
            (CaptureStage::SelectBitmap, CaptureEvent::Done(ok)) => if ok {
                self.advance(CaptureStage::CopyRegion, Some(Resource::Selection), CaptureAction::CopyRegion)
            } else {
                fail
            },
            (CaptureStage::CopyRegion, CaptureEvent::Done(ok)) => if ok {
                self.advance(CaptureStage::QueryHeader, None, CaptureAction::QueryHeader)
            } else {
                fail
            },
            (CaptureStage::QueryHeader, CaptureEvent::HeaderQueried(h)) => match h {
                Some(h) => {
                    let rh = readback_header_of(h);
                    (
                        SessionView { stage: CaptureStage::SizeReadback, header: Some(rh), ..self },
                        CaptureAction::SizeReadback(rh),
                    )
                },
                None => fail,
            },
            (CaptureStage::SizeReadback, CaptureEvent::HeaderQueried(h)) => match h {
                Some(h) => {
                    let rh = sized_header(self.header.unwrap(), h);
                    (
                        SessionView { stage: CaptureStage::ReadPixels, header: Some(rh), ..self },
                        CaptureAction::ReadPixels(rh),
                    )
                },
                None => fail,
            },
            (CaptureStage::ReadPixels, CaptureEvent::Done(ok)) => if ok {
                self.unwind(Ok(self.header.unwrap()))
            } else {
                fail
            },
            (CaptureStage::Release, CaptureEvent::Released) => self.unwind(self.outcome.unwrap()),
            _ => (self, CaptureAction::Finish(Err(CaptureError::ReadbackFailed))),
        }
    }
}

/// The decisions of one capture: which platform call comes next, which
/// error a failure is reported as, and that every resource acquired is
/// released, newest first, before the capture finishes.
pub struct CaptureSession {
    stage: CaptureStage,
    held: Vec<Resource>,
    header: Option<InfoHeader>,
    outcome: Option<Result<InfoHeader, CaptureError>>,
}

impl View for CaptureSession {
    type V = SessionView;

    closed spec fn view(&self) -> SessionView {
        SessionView { stage: self.stage, held: self.held@, header: self.header, outcome: self.outcome }
    }
}

impl CaptureSession {
    pub open spec fn wf(&self) -> bool {
        self@.wf()
    }

    /// A capture that begins by looking the window up.
    pub fn start() -> (r: (CaptureSession, CaptureAction))
        ensures
            r.0.wf(),
            r.0@.stage == CaptureStage::Locate,
            r.0@.held.len() == 0,
            r.0@.header.is_none(),
            r.1 == CaptureAction::FindWindow,
    {
        let s = CaptureSession { stage: CaptureStage::Locate, held: Vec::new(), header: None, outcome: None };
        assert(s.held@ =~= acquisition_order().take(0));
        (s, CaptureAction::FindWindow)
    }

    /// Whether `e` answers the action this session asked for last.
    pub fn accepts(&self, e: &CaptureEvent) -> (r: bool)
        ensures
            r == self@.accepts(*e),
    {
        match (self.stage, e) {
            (CaptureStage::Locate, CaptureEvent::Located(_)) => true,
            (CaptureStage::Inspect, CaptureEvent::Inspected { .. }) => true,
            (CaptureStage::AcquireSurface, CaptureEvent::Done(_)) => true,
            (CaptureStage::CreateMemorySurface, CaptureEvent::Done(_)) => true,
            (CaptureStage::CreateBitmap, CaptureEvent::Done(_)) => true,
            (CaptureStage::SelectBitmap, CaptureEvent::Done(_)) => true,
            (CaptureStage::CopyRegion, CaptureEvent::Done(_)) => true,
            (CaptureStage::QueryHeader, CaptureEvent::HeaderQueried(_)) => true,
            (CaptureStage::SizeReadback, CaptureEvent::HeaderQueried(_)) => true,
            (CaptureStage::ReadPixels, CaptureEvent::Done(_)) => true,
            (CaptureStage::Release, CaptureEvent::Released) => true,
            _ => false,
        }
    }

    fn unwind(&mut self, outcome: Result<InfoHeader, CaptureError>) -> (r: CaptureAction)
        ensures
            (final(self)@, r) == old(self)@.unwind(outcome),
    {
        self.outcome = Some(outcome);
        match self.held.pop() {
            Some(res) => {
                self.stage = CaptureStage::Release;
                CaptureAction::Release(res)
            },
            None => {
                self.stage = CaptureStage::Done;
                CaptureAction::Finish(outcome)
            },
        }
    }

    fn advance(&mut self, stage: CaptureStage, r: Option<Resource>, a: CaptureAction) -> (out: CaptureAction)
        ensures
            (final(self)@, out) == old(self)@.advance(stage, r, a),
    {
        self.stage = stage;
        if let Some(res) = r {
            self.held.push(res);
        }
        a
    }

    fn stage_error(&self) -> (r: CaptureError)
        ensures
            r == stage_error(self@.stage),
    {
        match self.stage {
            CaptureStage::Locate => CaptureError::WindowNotFound,
            CaptureStage::AcquireSurface => CaptureError::NoDrawingSurface,
            CaptureStage::CreateMemorySurface => CaptureError::NoCompatibleSurface,
            CaptureStage::CreateBitmap | CaptureStage::SelectBitmap => CaptureError::NoCompatibleBitmap,
            _ => CaptureError::ReadbackFailed,
        }
    }

    /// Takes in what the platform reported and returns what it is to do
    /// next (see [`SessionView::step`]).
    pub fn step(&mut self, e: CaptureEvent) -> (r: CaptureAction)
        requires
            old(self).wf(),
            old(self)@.accepts(e),
        ensures
            final(self).wf(),
            (final(self)@, r) == old(self)@.step(e),
    {
        proof {
            law_step_keeps_wf(self@, e);
        }
        let err = self.stage_error();
        match (self.stage, e) {
            (CaptureStage::Locate, CaptureEvent::Located(found)) => if found {
                self.advance(CaptureStage::Inspect, None, CaptureAction::InspectWindow)
            } else {
                self.unwind(Err(err))
            },
            (CaptureStage::Inspect, CaptureEvent::Inspected { client, desktop, style }) => {
                let desktop = Screenshoter.is_exclusive_fullscreen(&client, &desktop, style);
                self.advance(CaptureStage::AcquireSurface, None, CaptureAction::AcquireSurface { desktop })
            },
            (CaptureStage::AcquireSurface, CaptureEvent::Done(ok)) => if ok {
                self.advance(CaptureStage::CreateMemorySurface, Some(Resource::SourceSurface), CaptureAction::CreateMemorySurface)
            } else {
                self.unwind(Err(err))
            },
            (CaptureStage::CreateMemorySurface, CaptureEvent::Done(ok)) => if ok {
                self.advance(CaptureStage::CreateBitmap, Some(Resource::MemorySurface), CaptureAction::CreateBitmap)
            } else {
                self.unwind(Err(err))
            },
            (CaptureStage::CreateBitmap, CaptureEvent::Done(ok)) => if ok {
                self.advance(CaptureStage::SelectBitmap, Some(Resource::Bitmap), CaptureAction::SelectBitmap)
            } else {
                self.unwind(Err(err))
            },
            (CaptureStage::SelectBitmap, CaptureEvent::Done(ok)) => if ok {
                self.advance(CaptureStage::CopyRegion, Some(Resource::Selection), CaptureAction::CopyRegion)
            } else {
                self.unwind(Err(err))
            },
            (CaptureStage::CopyRegion, CaptureEvent::Done(ok)) => if ok {
                self.advance(CaptureStage::QueryHeader, None, CaptureAction::QueryHeader)
            } else {
                self.unwind(Err(err))
            },
            (CaptureStage::QueryHeader, CaptureEvent::HeaderQueried(h)) => match h {
                Some(h) => {
                    let rh = readback_header(&h);
                    self.stage = CaptureStage::SizeReadback;
                    self.header = Some(rh);
                    CaptureAction::SizeReadback(rh)
                },
                None => self.unwind(Err(err)),
            },
            (CaptureStage::SizeReadback, CaptureEvent::HeaderQueried(h)) => match (self.header, h) {
                (Some(asked), Some(h)) => {
                    let rh = InfoHeader { size_image: h.size_image, ..asked };
                    self.stage = CaptureStage::ReadPixels;
                    self.header = Some(rh);
                    CaptureAction::ReadPixels(rh)
                },
                _ => self.unwind(Err(err)),
            },
            (CaptureStage::ReadPixels, CaptureEvent::Done(ok)) => if ok {
                match self.header {
                    Some(h) => self.unwind(Ok(h)),
                    None => self.unwind(Err(err)),
                }
            } else {
                self.unwind(Err(err))
            },
            (CaptureStage::Release, CaptureEvent::Released) => match self.outcome {
                Some(o) => self.unwind(o),
                None => self.unwind(Err(err)),
            },
            _ => CaptureAction::Finish(Err(CaptureError::ReadbackFailed)),
        }
    }
}

/// Every step taken on an event that answers the last action keeps the
/// session well formed: resources stay in acquisition order and the
/// outcome is fixed once the capture starts releasing.
pub proof fn law_step_keeps_wf(s: SessionView, e: CaptureEvent)
    requires
        s.wf(),
        s.accepts(e),
    ensures
        s.step(e).0.wf(),
{
    let n = s.held.len() as int;
    let order = acquisition_order();
    match s.stage {
        CaptureStage::AcquireSurface => {
            assert(s.held.push(Resource::SourceSurface) =~= order.take(n + 1));
        },
        CaptureStage::CreateMemorySurface => {
            assert(s.held.push(Resource::MemorySurface) =~= order.take(n + 1));
        },
        CaptureStage::CreateBitmap => {
            assert(s.held.push(Resource::Bitmap) =~= order.take(n + 1));
        },
        CaptureStage::SelectBitmap => {
            assert(s.held.push(Resource::Selection) =~= order.take(n + 1));
        },
        _ => {},
    }
    if n > 0 {
        assert(s.held.drop_last() =~= order.take(n - 1));
    }
}

/// A capture finishes only once it holds nothing: every resource it
/// acquired has been released.
pub proof fn law_finish_releases_everything(s: SessionView, e: CaptureEvent)
    requires
        s.wf(),
        s.accepts(e),
    ensures
        s.step(e).1 matches CaptureAction::Finish(_) ==> s.step(e).0.held.len() == 0,
        s.step(e).1 matches CaptureAction::Release(r) ==> r == s.held.last() && s.step(e).0.held == s.held.drop_last(),
{
}

/// A title that no window carries ends the capture at once with the
/// not-found error, holding nothing.
pub proof fn law_missing_window_is_not_found(s: SessionView)
    requires
        s.wf(),
        s.stage == CaptureStage::Locate,
    ensures
        s.step(CaptureEvent::Located(false)).0.held.len() == 0,
        s.step(CaptureEvent::Located(false)).1 == CaptureAction::Finish(Err(CaptureError::WindowNotFound)),
{
}

/// Once a capture has stopped, the outcome it finishes with is the one it
/// stopped with: releasing never changes it.
pub proof fn law_release_keeps_outcome(s: SessionView)
    requires
        s.wf(),
        s.stage == CaptureStage::Release,
    ensures
        s.step(CaptureEvent::Released).0.outcome == s.outcome,
        s.step(CaptureEvent::Released).1 matches CaptureAction::Finish(o) ==> Some(o) == s.outcome,
{
}

} // verus!
