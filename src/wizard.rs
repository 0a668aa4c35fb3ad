use vstd::prelude::*;
use crate::device::{DeviceInfo, DeviceModel, ProbeError, device_models};
use crate::input::InputEvent;
use crate::page::{DevicePage, DevicePageModel, device_page_input, device_page_probed};

verus! {

/// File that stands in for the target device in fake mode.
pub open spec fn placeholder_target() -> Seq<char> {
    "test.img"@
}

/// Device written to outside fake mode.
pub open spec fn fixed_target() -> Seq<char> {
    "/dev/nvme0n1"@
}

/// How a write ended, as the flashing engine reports it.
#[derive(PartialEq, Eq, Structural, Clone, Copy, Debug)]
pub struct FlashOutcome {
    pub success: bool,
    pub written: u64,
}

/// The write stage: what is written where, and the outcome once it is known.
pub struct FlashPage {
    pub source: String,
    pub target: String,
    pub done: Option<FlashOutcome>,
}

/// The summary stage, holding the outcome of the write.
pub struct FinalPage {
    pub outcome: FlashOutcome,
}

/// The stage of the wizard that is current.
pub enum Page {
    Select(DevicePage),
    Flash(FlashPage),
    Final(FinalPage),
}

/// The mathematical value of a [`FlashPage`].
pub ghost struct FlashModel {
    pub source: Seq<char>,
    pub target: Seq<char>,
    pub done: Option<FlashOutcome>,
}

/// The mathematical value of a [`Page`].
pub ghost enum PageModel {
    Select(DevicePageModel),
    Flash(FlashModel),
    Final(FlashOutcome),
}

impl View for Page {
    type V = PageModel;

    open spec fn view(&self) -> PageModel {
        match self {
            Page::Select(d) => PageModel::Select(d@),
            Page::Flash(f) => PageModel::Flash(
                FlashModel { source: f.source@, target: f.target@, done: f.done },
            ),
            Page::Final(f) => PageModel::Final(f.outcome),
        }
    }
}

/// The write that the flashing engine is asked to start on entering the write stage.
pub struct FlashJob {
    pub source: String,
    pub target: String,
    /// In fake mode, the placeholder target file is to be created first.
    pub create_placeholder: bool,
}

/// The mathematical value of a [`FlashJob`].
pub ghost struct FlashJobModel {
    pub source: Seq<char>,
    pub target: Seq<char>,
    pub create_placeholder: bool,
}

impl View for FlashJob {
    type V = FlashJobModel;

    open spec fn view(&self) -> FlashJobModel {
        FlashJobModel {
            source: self.source@,
            target: self.target@,
            create_placeholder: self.create_placeholder,
        }
    }
}

/// Position of a stage in the sequence Select-Source, Write, Summary.
pub open spec fn stage_index(p: PageModel) -> nat {
    match p {
        PageModel::Select(_) => 0,
        PageModel::Flash(_) => 1,
        PageModel::Final(_) => 2,
    }
}

/// The transition check: a stage that reports a result is replaced by the
/// next one, built from that result; otherwise nothing changes.
pub open spec fn page_next(p: PageModel, fake: bool) -> (PageModel, Option<FlashJobModel>) {
    match p {
        PageModel::Select(d) => match d.selected {
            Some(dev) => {
                let target = if fake { placeholder_target() } else { fixed_target() };
                (
                    PageModel::Flash(FlashModel { source: dev.path, target, done: None }),
                    Some(FlashJobModel { source: dev.path, target, create_placeholder: fake }),
                )
            },
            None => (p, None),
        },
        PageModel::Flash(f) => match f.done {
            Some(o) => (PageModel::Final(o), None),
            None => (p, None),
        },
        PageModel::Final(_) => (p, None),
    }
}

/// Input goes to the select stage; the other stages ignore it.
pub open spec fn page_input(p: PageModel, ev: InputEvent) -> PageModel {
    match p {
        PageModel::Select(d) => PageModel::Select(device_page_input(d, ev)),
        _ => p,
    }
}

/// A probe result reaches the select stage only.
pub open spec fn page_probed(p: PageModel, r: Result<Seq<DeviceModel>, ProbeError>) -> PageModel {
    match p {
        PageModel::Select(d) => PageModel::Select(device_page_probed(d, r)),
        _ => p,
    }
}

/// A write outcome reaches the write stage only.
pub open spec fn page_flash_finished(p: PageModel, o: FlashOutcome) -> PageModel {
    match p {
        PageModel::Flash(f) => PageModel::Flash(FlashModel { done: Some(o), ..f }),
        _ => p,
    }
}

impl Page {
    /// The page is well formed: a select stage keeps its cursor in range.
    pub open spec fn wf(&self) -> bool {
        match self {
            Page::Select(d) => d.wf(),
            _ => true,
        }
    }

    /// Forwards an input event to the current stage.
    pub fn input(&mut self, ev: InputEvent)
        requires
            old(self).wf(),
        ensures
            final(self)@ == page_input(old(self)@, ev),
            final(self).wf(),
    {
        match self {
            Page::Select(d) => d.input(ev),
            _ => {},
        }
    }

    /// Hands the result of a device probe to the stage that asked for it.
    pub fn probed(&mut self, r: Result<Vec<DeviceInfo>, ProbeError>)
        requires
            old(self).wf(),
        ensures
            final(self)@ == page_probed(old(self)@, result_models(r)),
            final(self).wf(),
    {
        match self {
            Page::Select(d) => d.probed(r),
            _ => {},
        }
    }

    /// Records the outcome reported by the flashing engine.
    pub fn flash_finished(&mut self, o: FlashOutcome)
        requires
            old(self).wf(),
        ensures
            final(self)@ == page_flash_finished(old(self)@, o),
            final(self).wf(),
    {
        match self {
            Page::Flash(f) => {
                f.done = Some(o);
            },
            _ => {},
        }
    }

    /// Moves to the next stage when the current one reports a result. On
    /// entering the write stage, returns the write to start: to the
    /// placeholder file in fake mode, else to the fixed device.
    pub fn next_step(&mut self, fake: bool) -> (r: Option<FlashJob>)
        requires
            old(self).wf(),
        ensures
            (final(self)@, option_job_model(r)) == page_next(old(self)@, fake),
            final(self).wf(),
    {
        match self {
            Page::Select(d) => {
                match d.selected() {
                    Some(dev) => {
                        let target = if fake {
                            String::from_str("test.img")
                        } else {
                            String::from_str("/dev/nvme0n1")
                        };
                        let job = FlashJob {
                            source: dev.path.clone(),
                            target: target.clone(),
                            create_placeholder: fake,
                        };
                        *self = Page::Flash(FlashPage { source: dev.path, target, done: None });
                        Some(job)
                    },
                    None => None,
                }
            },
            Page::Flash(f) => match f.done {
                Some(o) => {
                    *self = Page::Final(FinalPage { outcome: o });
                    None
                },
                None => None,
            },
            Page::Final(_) => None,
        }
    }
}

/// The model of a probe result.
pub open spec fn result_models(r: Result<Vec<DeviceInfo>, ProbeError>) -> Result<Seq<DeviceModel>, ProbeError> {
    match r {
        Ok(v) => Ok(device_models(v@)),
        Err(e) => Err(e),
    }
}

/// The model of an optional write job.
pub open spec fn option_job_model(j: Option<FlashJob>) -> Option<FlashJobModel> {
    match j {
        Some(j) => Some(j@),
        None => None,
    }
}

} // verus!
