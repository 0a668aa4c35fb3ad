use vstd::prelude::*;
use crate::device::{DeviceInfo, DeviceModel, ProbeError, device_models};
use crate::input::{InputEvent, KeyCode};

verus! {

/// The page on which the operator picks a device from the probed list.
pub struct DevicePage {
    devices: Vec<DeviceInfo>,
    cursor: usize,
    selected: Option<DeviceInfo>,
}

/// The mathematical value of a [`DevicePage`].
pub ghost struct DevicePageModel {
    pub devices: Seq<DeviceModel>,
    pub cursor: nat,
    pub selected: Option<DeviceModel>,
}

/// The last index of the list, or 0 when it is empty.
pub open spec fn last_index(len: nat) -> nat {
    if len == 0 {
        0
    } else {
        (len - 1) as nat
    }
}

/// The cursor lies in `[0, len-1]`, and is 0 on an empty list.
pub open spec fn cursor_in_range(m: DevicePageModel) -> bool {
    m.cursor <= last_index(m.devices.len())
}

/// The model of an optional device.
pub open spec fn option_model(o: Option<DeviceInfo>) -> Option<DeviceModel> {
    match o {
        Some(d) => Some(d@),
        None => None,
    }
}

/// What one input event does to the page: Up/`k` and Down/`j` move the
/// cursor, saturating at both ends; Enter selects the device under the cursor.
pub open spec fn device_page_input(m: DevicePageModel, ev: InputEvent) -> DevicePageModel {
    match ev {
        InputEvent::Key(k) => match k.code {
            KeyCode::Up => DevicePageModel { cursor: if m.cursor > 0 { (m.cursor - 1) as nat } else { 0 }, ..m },
            KeyCode::Char('k') => DevicePageModel { cursor: if m.cursor > 0 { (m.cursor - 1) as nat } else { 0 }, ..m },
            KeyCode::Down => DevicePageModel { cursor: if m.cursor + 1 <= last_index(m.devices.len()) { m.cursor + 1 } else { last_index(m.devices.len()) }, ..m },
            KeyCode::Char('j') => DevicePageModel { cursor: if m.cursor + 1 <= last_index(m.devices.len()) { m.cursor + 1 } else { last_index(m.devices.len()) }, ..m },
            KeyCode::Enter => if m.cursor < m.devices.len() {
                DevicePageModel { selected: Some(m.devices[m.cursor as int]), ..m }
            } else {
                m
            },
            _ => m,
        },
        InputEvent::Other => m,
    }
}

/// What a finished probe does to the page: a new list replaces the old one
/// and the cursor is pulled back into it; a failed probe changes nothing.
pub open spec fn device_page_probed(m: DevicePageModel, r: Result<Seq<DeviceModel>, ProbeError>) -> DevicePageModel {
    match r {
        Ok(devs) => DevicePageModel {
            devices: devs,
            cursor: if m.cursor > last_index(devs.len()) { last_index(devs.len()) } else { m.cursor },
            ..m
        },
        Err(_) => m,
    }
}

/// The page after a sequence of input events, one after the other.
pub open spec fn device_page_inputs(m: DevicePageModel, evs: Seq<InputEvent>) -> DevicePageModel
    decreases evs.len(),
{
    if evs.len() == 0 {
        m
    } else {
        device_page_input(device_page_inputs(m, evs.drop_last()), evs.last())
    }
}

/// From a page whose cursor is in range, no sequence of input events moves
/// the cursor out of `[0, len-1]`; on an empty list it stays at 0.
pub proof fn lemma_cursor_stays_in_range(m: DevicePageModel, evs: Seq<InputEvent>)
    requires
        cursor_in_range(m),
    ensures
        cursor_in_range(device_page_inputs(m, evs)),
        device_page_inputs(m, evs).devices == m.devices,
        m.devices.len() == 0 ==> device_page_inputs(m, evs).cursor == 0,
    decreases evs.len(),
{
    if evs.len() > 0 {
        lemma_cursor_stays_in_range(m, evs.drop_last());
    }
}

impl View for DevicePage {
    type V = DevicePageModel;

    closed spec fn view(&self) -> DevicePageModel {
        DevicePageModel {
            devices: device_models(self.devices@),
            cursor: self.cursor as nat,
            selected: option_model(self.selected),
        }
    }
}

impl DevicePage {
    /// The page is well formed: its cursor is in range.
    pub open spec fn wf(&self) -> bool {
        cursor_in_range(self@)
    }

    /// An empty page, before any probe has finished.
    pub fn new() -> (r: DevicePage)
        ensures
            r@ == (DevicePageModel { devices: Seq::empty(), cursor: 0, selected: None }),
            r.wf(),
    {
        let r = DevicePage { devices: Vec::new(), cursor: 0, selected: None };
        assert(r@.devices =~= Seq::<DeviceModel>::empty());
        r
    }

    /// Takes the device that the operator chose, if any, leaving none chosen.
    pub fn selected(&mut self) -> (r: Option<DeviceInfo>)
        ensures
            option_model(r) == old(self)@.selected,
            final(self)@ == (DevicePageModel { selected: None, ..old(self)@ }),
            old(self).wf() ==> final(self).wf(),
    {
        self.selected.take()
    }

    /// The devices on the page, in the order of the listing.
    pub fn devices(&self) -> (r: &Vec<DeviceInfo>)
        ensures
            device_models(r@) == self@.devices,
    {
        &self.devices
    }

    /// The index under the cursor.
    pub fn cursor(&self) -> (r: usize)
        ensures
            r == self@.cursor,
    {
        self.cursor
    }

    /// Reacts to one input event.
    pub fn input(&mut self, ev: InputEvent)
        requires
            old(self).wf(),
        ensures
            final(self)@ == device_page_input(old(self)@, ev),
            final(self).wf(),
    {
        let last: usize = if self.devices.len() == 0 { 0 } else { self.devices.len() - 1 };
        match ev {
            InputEvent::Key(k) => match k.code {
                KeyCode::Up => {
                    self.cursor = if self.cursor > 0 { self.cursor - 1 } else { 0 };
                },
                KeyCode::Down => {
                    self.cursor = if self.cursor < last { self.cursor + 1 } else { last };
                },
                KeyCode::Char(c) => {
                    if c == 'k' {
                        self.cursor = if self.cursor > 0 { self.cursor - 1 } else { 0 };
                    } else if c == 'j' {
                        self.cursor = if self.cursor < last { self.cursor + 1 } else { last };
                    }
                },
                KeyCode::Enter => {
                    if self.cursor < self.devices.len() {
                        let d = self.devices[self.cursor].duplicate();
                        self.selected = Some(d);
                    }
                },
                KeyCode::Other => {},
            },
            InputEvent::Other => {},
        }
    }

    /// Takes in the result of a device probe.
    pub fn probed(&mut self, r: Result<Vec<DeviceInfo>, ProbeError>)
        requires
            old(self).wf(),
        ensures
            final(self)@ == device_page_probed(
                old(self)@,
                match r {
                    Ok(v) => Ok(device_models(v@)),
                    Err(e) => Err(e),
                },
            ),
            final(self).wf(),
    {
        match r {
            Ok(devs) => {
                self.devices = devs;
                let last: usize = if self.devices.len() == 0 { 0 } else { self.devices.len() - 1 };
                if self.cursor > last {
                    self.cursor = last;
                }
            },
            Err(_) => {},
        }
    }
}

} // verus!
