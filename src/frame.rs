use vstd::prelude::*;

verus! {

/// What a render tick hands to the GUI when it opens a frame.
#[derive(Clone, Copy, Debug, PartialEq, Eq, Structural)]
pub struct FrameParams {
    pub display_width: i32,
    pub display_height: i32,
    /// Display scale in percent: 100 for one pixel per GUI unit.
    pub dpi_scale_percent: u32,
    /// Time since the previous frame, in microseconds.
    pub delta_micros: u64,
}

/// How `begin_frame` went, when it was no usage error.
#[derive(Clone, Copy, Debug, PartialEq, Eq, Structural)]
pub enum FrameStart {
    Opened,
    /// The display has no area: this tick draws no GUI.
    Skipped,
}

/// Usage errors of the frame protocol.
#[derive(Clone, Copy, Debug, PartialEq, Eq, Structural)]
pub enum FrameError {
    /// `begin_frame` while a frame is open.
    AlreadyOpen,
    /// `end_frame` while no frame is open.
    NotOpen,
}

/// Owns the one GUI frame that may be open at a time.
pub struct FrameCoordinator {
    open: Option<FrameParams>,
}

impl View for FrameCoordinator {
    type V = Option<FrameParams>;

    /// The open frame, if any.
    closed spec fn view(&self) -> Option<FrameParams> {
        self.open
    }
}

pub open spec fn has_area(p: FrameParams) -> bool {
    p.display_width > 0 && p.display_height > 0
}

/// State and result of `begin_frame` from state `s`.
pub open spec fn after_begin(s: Option<FrameParams>, p: FrameParams) -> (
    Option<FrameParams>,
    Result<FrameStart, FrameError>,
) {
    if s is Some {
        (s, Err(FrameError::AlreadyOpen))
    } else if !has_area(p) {
        (None, Ok(FrameStart::Skipped))
    } else {
        (Some(p), Ok(FrameStart::Opened))
    }
}

/// State and result of `end_frame` from state `s`.
pub open spec fn after_end(s: Option<FrameParams>) -> (Option<FrameParams>, Result<
    FrameParams,
    FrameError,
>) {
    match s {
        Some(p) => (None, Ok(p)),
        None => (None, Err(FrameError::NotOpen)),
    }
}

/// From state `s`, each tick of `ps` runs `begin_frame` then `end_frame`:
/// no begin meets an open frame, an end succeeds exactly after a begin that
/// opened, and each tick ends closed.
pub open spec fn ticks_alternate(s: Option<FrameParams>, ps: Seq<FrameParams>) -> bool
    decreases ps.len(),
{
    if ps.len() == 0 {
        true
    } else {
        let (s1, began) = after_begin(s, ps[0]);
        let (s2, ended) = after_end(s1);
        &&& began is Ok
        &&& (began == Ok::<FrameStart, FrameError>(FrameStart::Opened) <==> ended is Ok)
        &&& s2 is None
        &&& ticks_alternate(s2, ps.drop_first())
    }
}

impl FrameCoordinator {
    /// A coordinator with no frame open.
    pub fn new() -> (r: FrameCoordinator)
        ensures
            r@ is None,
    {
        FrameCoordinator { open: None }
    }

    pub fn is_open(&self) -> (r: bool)
        ensures
            r == self@ is Some,
    {
        self.open.is_some()
    }

    /// Opens a frame. A display without area skips the tick; a frame that
    /// is already open is a usage error, and stays as it was.
    pub fn begin_frame(&mut self, params: FrameParams) -> (r: Result<FrameStart, FrameError>)
        ensures
            (final(self)@, r) == after_begin(old(self)@, params),
    {
        if self.open.is_some() {
            Err(FrameError::AlreadyOpen)
        } else if params.display_width <= 0 || params.display_height <= 0 {
            Ok(FrameStart::Skipped)
        } else {
            self.open = Some(params);
            Ok(FrameStart::Opened)
        }
    }

    /// Closes the open frame and hands it back.
    pub fn end_frame(&mut self) -> (r: Result<FrameParams, FrameError>)
        ensures
            (final(self)@, r) == after_end(old(self)@),
    {
        match self.open {
            Some(p) => {
                self.open = None;
                Ok(p)
            },
            None => Err(FrameError::NotOpen),
        }
    }

    /// Runs `f` on the open frame and returns what it returned; with no
    /// frame open, `f` is not run.
    pub fn with_current_frame<R, F: FnOnce(&FrameParams) -> R>(&self, f: F) -> (r: Option<R>)
        requires
            self@ matches Some(p) ==> f.requires((&p,)),
        ensures
            self@ is None ==> r is None,
            self@ matches Some(p) ==> (r matches Some(x) && f.ensures((&p,), x)),
    {
        match &self.open {
            Some(p) => Some(f(p)),
            None => None,
        }
    }
}

/// A display without area opens no frame: the state stays as it was, so
/// from a closed state no frame is open and `with_current_frame` runs no
/// callback.
pub proof fn lemma_no_area_opens_nothing(s: Option<FrameParams>, p: FrameParams)
    requires
        p.display_width <= 0 || p.display_height <= 0,
    ensures
        after_begin(s, p).0 == s,
        s is None ==> after_begin(s, p).1 == Ok::<FrameStart, FrameError>(FrameStart::Skipped),
{
}

/// Opening and closing alternate: an opened frame refuses a second
/// `begin_frame`, `end_frame` closes it and hands it back, and a second
/// `end_frame` is refused.
pub proof fn lemma_open_close_alternate(p: FrameParams, q: FrameParams)
    requires
        has_area(p),
    ensures
        after_begin(None, p) == (Some(p), Ok::<FrameStart, FrameError>(FrameStart::Opened)),
        after_begin(Some(p), q) == (Some(p), Err::<FrameStart, FrameError>(FrameError::AlreadyOpen)),
        after_end(Some(p)) == (None::<FrameParams>, Ok::<FrameParams, FrameError>(p)),
        after_end(None) == (None::<FrameParams>, Err::<FrameParams, FrameError>(FrameError::NotOpen)),
{
}

/// Any run of ticks, each a `begin_frame` and an `end_frame`, started with
/// no frame open, alternates strictly.
pub proof fn lemma_ticks_alternate(ps: Seq<FrameParams>)
    ensures
        ticks_alternate(None, ps),
    decreases ps.len(),
{
    if ps.len() > 0 {
        lemma_ticks_alternate(ps.drop_first());
    }
}

} // verus!
