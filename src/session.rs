use vstd::prelude::*;
use crate::device::{DeviceInfo, DeviceModel, ProbeError};
use crate::input::{InputEvent, is_quit, is_quit_input};
use crate::page::{DevicePage, DevicePageModel};
use crate::wizard::{
    FlashJob, FlashJobModel, FlashOutcome, Page, PageModel, fixed_target, page_flash_finished,
    page_input, page_next, page_probed, placeholder_target, result_models, stage_index,
};

verus! {

/// Options that hold for the whole session.
pub struct Opts {
    /// Redirect destructive writes to a placeholder file.
    pub fake: bool,
    /// Further directories to search for source images.
    pub images: Vec<String>,
}

/// What woke the event loop on one iteration.
pub enum LoopEvent {
    /// A terminal input event.
    Input(InputEvent),
    /// Reading the terminal failed or its stream ended: no event this time.
    InputFailed,
    /// The periodic redraw timer fired.
    Tick,
    /// The select stage's device probe finished.
    Probed(Result<Vec<DeviceInfo>, ProbeError>),
    /// The flashing engine reported how the write ended.
    FlashFinished(FlashOutcome),
}

/// The mathematical value of a [`LoopEvent`].
pub ghost enum EventModel {
    Input(InputEvent),
    InputFailed,
    Tick,
    Probed(Result<Seq<DeviceModel>, ProbeError>),
    FlashFinished(FlashOutcome),
}

impl View for LoopEvent {
    type V = EventModel;

    open spec fn view(&self) -> EventModel {
        match self {
            LoopEvent::Input(i) => EventModel::Input(*i),
            LoopEvent::InputFailed => EventModel::InputFailed,
            LoopEvent::Tick => EventModel::Tick,
            LoopEvent::Probed(r) => EventModel::Probed(result_models(*r)),
            LoopEvent::FlashFinished(o) => EventModel::FlashFinished(*o),
        }
    }
}

/// What the event loop is to do after one iteration.
pub enum LoopAction {
    /// Leave the loop.
    Quit,
    /// Go on to the next iteration.
    Continue,
    /// Start the given write, then go on.
    StartFlash(FlashJob),
}

/// The mathematical value of a [`LoopAction`].
pub ghost enum ActionModel {
    Quit,
    Continue,
    StartFlash(FlashJobModel),
}

impl View for LoopAction {
    type V = ActionModel;

    open spec fn view(&self) -> ActionModel {
        match self {
            LoopAction::Quit => ActionModel::Quit,
            LoopAction::Continue => ActionModel::Continue,
            LoopAction::StartFlash(j) => ActionModel::StartFlash(j@),
        }
    }
}

/// The session: the current stage and the fake-mode flag.
pub struct Session {
    page: Page,
    options: Opts,
}

/// The mathematical value of a [`Session`].
pub ghost struct SessionModel {
    pub page: PageModel,
    pub fake: bool,
}

impl View for Session {
    type V = SessionModel;

    closed spec fn view(&self) -> SessionModel {
        SessionModel { page: self.page@, fake: self.options.fake }
    }
}

/// The event is the quit key combination.
pub open spec fn is_quit_event(ev: EventModel) -> bool {
    ev is Input && is_quit_input(ev->Input_0)
}

/// One iteration of the event loop. The quit key ends the loop at once and
/// changes nothing. Otherwise the event goes to the current stage, and the
/// transition check runs, whatever the event was.
pub open spec fn session_step(s: SessionModel, ev: EventModel) -> (SessionModel, ActionModel) {
    if is_quit_event(ev) {
        (s, ActionModel::Quit)
    } else {
        let p = match ev {
            EventModel::Input(i) => page_input(s.page, i),
            EventModel::Probed(r) => page_probed(s.page, r),
            EventModel::FlashFinished(o) => page_flash_finished(s.page, o),
            _ => s.page,
        };
        let (next, job) = page_next(p, s.fake);
        (
            SessionModel { page: next, ..s },
            match job {
                Some(j) => ActionModel::StartFlash(j),
                None => ActionModel::Continue,
            },
        )
    }
}

/// The session after a sequence of events, the loop having gone on after each.
pub open spec fn session_run(s: SessionModel, evs: Seq<EventModel>) -> SessionModel
    decreases evs.len(),
{
    if evs.len() == 0 {
        s
    } else {
        session_step(session_run(s, evs.drop_last()), evs.last()).0
    }
}

/// One iteration never moves back a stage and never skips one.
pub proof fn lemma_step_moves_forward_by_at_most_one(s: SessionModel, ev: EventModel)
    ensures
        stage_index(s.page) <= stage_index(session_step(s, ev).0.page) <= stage_index(s.page) + 1,
{
}

/// Over any sequence of events, the stage index never decreases, and it
/// grows by at most one per event: Select-Source, Write and Summary come in
/// that order, none is skipped and none is entered twice.
pub proof fn lemma_stages_in_order(s: SessionModel, evs: Seq<EventModel>, i: int, j: int)
    requires
        0 <= i <= j <= evs.len(),
    ensures
        stage_index(session_run(s, evs.take(i)).page) <= stage_index(
            session_run(s, evs.take(j)).page,
        ),
        j == i + 1 ==> stage_index(session_run(s, evs.take(j)).page) <= stage_index(
            session_run(s, evs.take(i)).page,
        ) + 1,
    decreases j - i,
{
    if i < j {
        lemma_stages_in_order(s, evs, i, j - 1);
        assert(evs.take(j).drop_last() =~= evs.take(j - 1));
        lemma_step_moves_forward_by_at_most_one(session_run(s, evs.take(j - 1)), evs[j - 1]);
    }
}

/// Leaving the select stage, the write goes to the placeholder file in fake
/// mode, and to the fixed device otherwise.
pub proof fn lemma_write_target(s: SessionModel, ev: EventModel)
    requires
        stage_index(s.page) == 0,
        stage_index(session_step(s, ev).0.page) == 1,
    ensures
        session_step(s, ev).0.page->Flash_0.target == (if s.fake {
            placeholder_target()
        } else {
            fixed_target()
        }),
        session_step(s, ev).1 is StartFlash,
        session_step(s, ev).1->StartFlash_0.target == session_step(s, ev).0.page->Flash_0.target,
        session_step(s, ev).1->StartFlash_0.create_placeholder == s.fake,
        s.fake ==> !("/dev/"@.is_prefix_of(session_step(s, ev).0.page->Flash_0.target)),
{
    if s.fake {
        reveal_strlit("test.img");
        reveal_strlit("/dev/");
        assert(session_step(s, ev).0.page->Flash_0.target[0] != "/dev/"@[0]);
    }
}

/// The quit key ends the loop on the iteration that reads it, whatever the
/// stage, and leaves the session as it was.
pub proof fn lemma_quit_ends_loop(s: SessionModel, ev: EventModel)
    requires
        is_quit_event(ev),
    ensures
        session_step(s, ev) == (s, ActionModel::Quit),
{
}

impl Session {
    /// The session is well formed: its current stage is.
    pub closed spec fn wf(&self) -> bool {
        self.page.wf()
    }

    /// A new session at the select stage, with an empty device list.
    pub fn new(options: Opts) -> (r: Session)
        ensures
            r@.page == PageModel::Select(
                DevicePageModel { devices: Seq::empty(), cursor: 0, selected: None },
            ),
            r@.fake == options.fake,
            r.wf(),
    {
        Session { page: Page::Select(DevicePage::new()), options }
    }

    /// The current stage.
    pub fn page(&self) -> (r: &Page)
        ensures
            r@ == self@.page,
    {
        &self.page
    }

    /// The session's options.
    pub fn options(&self) -> (r: &Opts)
        ensures
            r.fake == self@.fake,
    {
        &self.options
    }

    /// Runs the decisions of one loop iteration on the event that woke it.
    pub fn step(&mut self, ev: LoopEvent) -> (r: LoopAction)
        requires
            old(self).wf(),
        ensures
            (final(self)@, r@) == session_step(old(self)@, ev@),
            final(self).wf(),
    {
        if let LoopEvent::Input(i) = &ev {
            if is_quit(i) {
                return LoopAction::Quit;
            }
        }
        match ev {
            LoopEvent::Input(i) => self.page.input(i),
            LoopEvent::Probed(r) => self.page.probed(r),
            LoopEvent::FlashFinished(o) => self.page.flash_finished(o),
            LoopEvent::InputFailed => {},
            LoopEvent::Tick => {},
        }
        match self.page.next_step(self.options.fake) {
            Some(job) => LoopAction::StartFlash(job),
            None => LoopAction::Continue,
        }
    }
}

} // verus!
