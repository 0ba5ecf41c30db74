//! The session with the bus: the two channels, the ids of the emulated
//! devices, what is held down, and the course of an activation or a
//! deactivation.
//!
//! Bringing the devices up or down takes several exchanges with the
//! operating system. The manager asks for one at a time, as an [`Action`],
//! and is told its outcome by the method that the action names.

use crate::channel::{create_result, creation_outcome, transaction_result, BusChannel, Transaction};
use crate::codec::{keyboard_report, mouse_report};
use crate::constants::{IOCTL_MOVE_MOUSE, IOCTL_SEND_KEYBOARD};
use crate::input::{pressed, released, InputState};
use crate::status::{VHidError, VHidResult};
use crate::types::{DeviceIds, DeviceType, KeyboardInput, MouseInput};
use crate::wire::{byte_of, to_byte};
use vstd::prelude::*;

verus! {

/// How long the bus driver is given, in milliseconds, to enumerate the
/// devices it was asked to create before they are looked for.
pub const SETTLE_DELAY_MS: u64 = 1000;

/// How long, in milliseconds, a click holds the button and a tap the key.
pub const HOLD_DELAY_MS: u64 = 20;

/// Where an activation or a deactivation stands.
#[derive(Debug, Clone, Copy, PartialEq, Eq, Structural)]
pub enum Phase {
    /// Nothing is under way.
    Idle,
    /// Activation: the devices that exist already are being looked for.
    Discovering,
    /// Activation: the creation of the keyboard was submitted.
    CreatingKeyboard,
    /// Activation: the creation of the mouse was submitted.
    CreatingMouse,
    /// Activation: the bus driver is given time to enumerate.
    Settling,
    /// Activation: the created devices are being looked for.
    Rediscovering,
    /// Deactivation: the destruction of the keyboard was submitted.
    DestroyingKeyboard,
    /// Deactivation: the destruction of the mouse was submitted.
    DestroyingMouse,
}

/// What the manager asks for next.
#[derive(Debug, Clone, Copy, PartialEq, Eq, Structural)]
pub enum Action {
    /// Walk the device tree; answer with `discovered`.
    Discover,
    /// Submit the bus channel's create transaction for this device; answer
    /// with `created`.
    Create(DeviceType),
    /// Wait this many milliseconds; answer with `settled`.
    Settle(u64),
    /// Submit the bus channel's destroy transaction for this device; answer
    /// with `destroyed`.
    Destroy(u32, DeviceType),
    /// Nothing: the operation is over, with this status.
    Done(VHidResult),
}

/// The session with the bus.
#[derive(Debug, PartialEq, Eq)]
pub struct DeviceHandleManager {
    /// The channel to the bus device, on which devices are created and
    /// destroyed.
    pub bus: BusChannel,
    /// The channel to the emulated input device, on which reports are
    /// written.
    pub device: BusChannel,
    /// The ids of the emulated devices, as the device tree showed them.
    pub ids: DeviceIds,
    /// What is held down.
    pub input: InputState,
    /// Where the operation under way stands.
    pub phase: Phase,
    /// The ids that the bus returned for the devices it created last.
    pub created: DeviceIds,
    /// Whether a destruction of the deactivation under way has failed.
    pub failed: bool,
    /// The last error met.
    pub last_error: Option<VHidError>,
}

/// No device known.
pub open spec fn no_ids() -> DeviceIds {
    DeviceIds { keyboard_id: None, mouse_id: None }
}

/// The error to remember after an outcome: that of a failure, else the one
/// remembered before.
pub open spec fn remembered<T>(before: Option<VHidError>, outcome: Result<T, VHidError>) -> Option<
    VHidError,
> {
    match outcome {
        Ok(_) => before,
        Err(e) => Some(e),
    }
}

/// The answer to what was not asked, or a request while another is under
/// way: nothing changes.
pub open spec fn turned_down(m: DeviceHandleManager) -> (DeviceHandleManager, Action) {
    (m, Action::Done(VHidResult::InvalidParameter))
}

/// An activation begins. With devices known already there is nothing to do;
/// without an open bus channel nothing can be done; else the devices that
/// exist are looked for first.
pub open spec fn after_activate(m: DeviceHandleManager) -> (DeviceHandleManager, Action) {
    if m.phase != Phase::Idle {
        turned_down(m)
    } else if !m.ids.spec_is_empty() {
        (m, Action::Done(VHidResult::Success))
    } else if !m.bus.spec_is_open() {
        (m, Action::Done(VHidResult::NotInitialized))
    } else {
        (
            DeviceHandleManager {
                phase: Phase::Discovering,
                created: no_ids(),
                failed: false,
                ..m
            },
            Action::Discover,
        )
    }
}

/// The device tree was walked. A failed walk ends the activation with its
/// error. Devices found before anything was created are adopted and end it;
/// where none is found, the keyboard is created first. What is found after
/// the creation is adopted as it is.
pub open spec fn after_discovered(m: DeviceHandleManager, result: Result<DeviceIds, VHidError>) -> (
    DeviceHandleManager,
    Action,
) {
    match m.phase {
        Phase::Discovering => match result {
            Err(e) => (
                DeviceHandleManager { phase: Phase::Idle, last_error: Some(e), ..m },
                Action::Done(e.spec_status()),
            ),
            Ok(ids) => if !ids.spec_is_empty() {
                (DeviceHandleManager { phase: Phase::Idle, ids, ..m }, Action::Done(VHidResult::Success))
            } else if m.bus.spec_is_open() {
                (
                    DeviceHandleManager { phase: Phase::CreatingKeyboard, ..m },
                    Action::Create(DeviceType::Keyboard),
                )
            } else {
                (
                    DeviceHandleManager { phase: Phase::Idle, ..m },
                    Action::Done(VHidResult::NotInitialized),
                )
            },
        },
        Phase::Rediscovering => match result {
            Err(e) => (
                DeviceHandleManager { phase: Phase::Idle, last_error: Some(e), ..m },
                Action::Done(e.spec_status()),
            ),
            Ok(ids) => (
                DeviceHandleManager { phase: Phase::Idle, ids, ..m },
                Action::Done(VHidResult::Success),
            ),
        },
        _ => turned_down(m),
    }
}

/// A creation came to its end. Its id, or its error, is remembered; a
/// failure does not stop the activation. After the keyboard the mouse is
/// created, after the mouse the bus driver is given time.
pub open spec fn after_created(m: DeviceHandleManager, outcome: Result<u32, VHidError>) -> (
    DeviceHandleManager,
    Action,
) {
    let id = match outcome {
        Ok(id) => Some(id),
        Err(_) => None,
    };
    let last_error = remembered(m.last_error, outcome);
    match m.phase {
        Phase::CreatingKeyboard => {
            let created = DeviceIds { keyboard_id: id, ..m.created };
            if m.bus.spec_is_open() {
                (
                    DeviceHandleManager { phase: Phase::CreatingMouse, created, last_error, ..m },
                    Action::Create(DeviceType::Mouse),
                )
            } else {
                (
                    DeviceHandleManager { phase: Phase::Idle, created, last_error, ..m },
                    Action::Done(VHidResult::NotInitialized),
                )
            }
        },
        Phase::CreatingMouse => (
            DeviceHandleManager {
                phase: Phase::Settling,
                created: DeviceIds { mouse_id: id, ..m.created },
                last_error,
                ..m
            },
            Action::Settle(SETTLE_DELAY_MS),
        ),
        _ => turned_down(m),
    }
}

/// The time given to the bus driver is over: the devices are looked for.
pub open spec fn after_settled(m: DeviceHandleManager) -> (DeviceHandleManager, Action) {
    match m.phase {
        Phase::Settling => (DeviceHandleManager { phase: Phase::Rediscovering, ..m }, Action::Discover),
        _ => turned_down(m),
    }
}

/// A deactivation begins. With no device known there is nothing to do;
/// without an open bus channel nothing can be done; else the keyboard is
/// destroyed first, or the mouse where no keyboard is known.
pub open spec fn after_deactivate(m: DeviceHandleManager) -> (DeviceHandleManager, Action) {
    if m.phase != Phase::Idle {
        turned_down(m)
    } else if m.ids.spec_is_empty() {
        (m, Action::Done(VHidResult::Success))
    } else if !m.bus.spec_is_open() {
        (m, Action::Done(VHidResult::NotInitialized))
    } else {
        match (m.ids.keyboard_id, m.ids.mouse_id) {
            (Some(id), _) => (
                DeviceHandleManager { phase: Phase::DestroyingKeyboard, failed: false, ..m },
                Action::Destroy(id, DeviceType::Keyboard),
            ),
            (None, Some(id)) => (
                DeviceHandleManager { phase: Phase::DestroyingMouse, failed: false, ..m },
                Action::Destroy(id, DeviceType::Mouse),
            ),
            (None, None) => (m, Action::Done(VHidResult::Success)),
        }
    }
}

/// The end of a deactivation: no device is known any more, whatever became
/// of the destructions; the status tells whether one of them failed.
pub open spec fn deactivated(m: DeviceHandleManager, failed: bool) -> (DeviceHandleManager, Action) {
    (
        DeviceHandleManager { phase: Phase::Idle, ids: no_ids(), failed: false, ..m },
        Action::Done(
            if failed {
                VHidResult::Error
            } else {
                VHidResult::Success
            },
        ),
    )
}

/// A destruction came to its end. A failure is remembered and does not stop
/// the deactivation. After the keyboard the mouse is destroyed, where one is
/// known and the bus channel is open; then the deactivation ends.
pub open spec fn after_destroyed(m: DeviceHandleManager, outcome: Result<(), VHidError>) -> (
    DeviceHandleManager,
    Action,
) {
    let failed = m.failed || outcome is Err;
    let last_error = remembered(m.last_error, outcome);
    match m.phase {
        Phase::DestroyingKeyboard => match m.ids.mouse_id {
            Some(id) => if m.bus.spec_is_open() {
                (
                    DeviceHandleManager { phase: Phase::DestroyingMouse, failed, last_error, ..m },
                    Action::Destroy(id, DeviceType::Mouse),
                )
            } else {
                deactivated(DeviceHandleManager { last_error, ..m }, true)
            },
            None => deactivated(DeviceHandleManager { last_error, ..m }, failed),
        },
        Phase::DestroyingMouse => deactivated(DeviceHandleManager { last_error, ..m }, failed),
        _ => turned_down(m),
    }
}

/// The status of a reset, of which the mouse's report and the keyboard's
/// were written independently: it is the keyboard's that decides.
pub open spec fn reset_status(mouse_written: bool, keyboard_written: bool) -> VHidResult {
    if keyboard_written {
        VHidResult::Success
    } else {
        VHidResult::Error
    }
}

impl DeviceHandleManager {
    /// Whether both channels are open.
    pub open spec fn spec_is_initialized(&self) -> bool {
        self.bus.spec_is_open() && self.device.spec_is_open()
    }

    /// A session before anything was opened: both channels closed, no
    /// device known, nothing held down, nothing under way.
    pub fn new() -> (r: Self)
        ensures
            !r.bus.spec_is_open(),
            !r.device.spec_is_open(),
            r.bus.handle is None,
            r.device.handle is None,
            r.ids == no_ids(),
            r.created == no_ids(),
            r.input.is_idle(),
            r.phase == Phase::Idle,
            !r.failed,
            r.last_error is None,
    {
        DeviceHandleManager {
            bus: BusChannel::closed(),
            device: BusChannel::closed(),
            ids: DeviceIds::new(),
            input: InputState::new(),
            phase: Phase::Idle,
            created: DeviceIds::new(),
            failed: false,
            last_error: None,
        }
    }

    /// Whether both channels are open.
    #[verifier::when_used_as_spec(spec_is_initialized)]
    pub fn is_initialized(&self) -> (r: bool)
        ensures
            r == self.spec_is_initialized(),
    {
        self.bus.is_open() && self.device.is_open()
    }

    /// Closes both channels and hands out the handles that are to be
    /// released, the input device's first, the bus's second: each open
    /// handle once, and none a second time.
    pub fn shutdown(&mut self) -> (r: (Option<isize>, Option<isize>))
        ensures
            r.0 == old(self).device.open_handle(),
            r.1 == old(self).bus.open_handle(),
            !final(self).bus.spec_is_open(),
            !final(self).device.spec_is_open(),
            final(self).bus.handle is None,
            final(self).device.handle is None,
            final(self).ids == old(self).ids,
            final(self).input == old(self).input,
            final(self).phase == old(self).phase,
            final(self).created == old(self).created,
            final(self).failed == old(self).failed,
            final(self).last_error == old(self).last_error,
    {
        let device = self.device.close();
        let bus = self.bus.close();
        (device, bus)
    }

    /// Begins an activation.
    pub fn activate(&mut self) -> (r: Action)
        ensures
            (*final(self), r) == after_activate(*old(self)),
    {
        if self.phase != Phase::Idle {
            Action::Done(VHidResult::InvalidParameter)
        } else if !self.ids.is_empty() {
            Action::Done(VHidResult::Success)
        } else if !self.bus.is_open() {
            Action::Done(VHidResult::NotInitialized)
        } else {
            self.phase = Phase::Discovering;
            self.created = DeviceIds::new();
            self.failed = false;
            Action::Discover
        }
    }

    /// Takes the answer to `Discover`: the ids that the walk found, or its
    /// error.
    pub fn discovered(&mut self, result: Result<DeviceIds, VHidError>) -> (r: Action)
        ensures
            (*final(self), r) == after_discovered(*old(self), result),
    {
        match self.phase {
            Phase::Discovering => match result {
                Err(e) => {
                    let status = e.status();
                    self.phase = Phase::Idle;
                    self.last_error = Some(e);
                    Action::Done(status)
                },
                Ok(ids) => {
                    if !ids.is_empty() {
                        self.phase = Phase::Idle;
                        self.ids = ids;
                        Action::Done(VHidResult::Success)
                    } else if self.bus.is_open() {
                        self.phase = Phase::CreatingKeyboard;
                        Action::Create(DeviceType::Keyboard)
                    } else {
                        self.phase = Phase::Idle;
                        Action::Done(VHidResult::NotInitialized)
                    }
                },
            },
            Phase::Rediscovering => match result {
                Err(e) => {
                    let status = e.status();
                    self.phase = Phase::Idle;
                    self.last_error = Some(e);
                    Action::Done(status)
                },
                Ok(ids) => {
                    self.phase = Phase::Idle;
                    self.ids = ids;
                    Action::Done(VHidResult::Success)
                },
            },
            _ => Action::Done(VHidResult::InvalidParameter),
        }
    }

    /// Takes the answer to `Create`, given what the end of the transaction
    /// means.
    pub fn creation_judged(&mut self, outcome: Result<u32, VHidError>) -> (r: Action)
        ensures
            (*final(self), r) == after_created(*old(self), outcome),
    {
        match self.phase {
            Phase::CreatingKeyboard => {
                match outcome {
                    Ok(id) => {
                        self.created.keyboard_id = Some(id);
                    },
                    Err(e) => {
                        self.created.keyboard_id = None;
                        self.last_error = Some(e);
                    },
                }
                if self.bus.is_open() {
                    self.phase = Phase::CreatingMouse;
                    Action::Create(DeviceType::Mouse)
                } else {
                    self.phase = Phase::Idle;
                    Action::Done(VHidResult::NotInitialized)
                }
            },
            Phase::CreatingMouse => {
                match outcome {
                    Ok(id) => {
                        self.created.mouse_id = Some(id);
                    },
                    Err(e) => {
                        self.created.mouse_id = None;
                        self.last_error = Some(e);
                    },
                }
                self.phase = Phase::Settling;
                Action::Settle(SETTLE_DELAY_MS)
            },
            _ => Action::Done(VHidResult::InvalidParameter),
        }
    }

    /// Takes the answer to `Create`: the bus driver's response, or the
    /// operating system's text where the transaction failed.
    pub fn created(&mut self, completion: Result<Vec<u8>, String>) -> (r: Action)
        ensures
            (*final(self), r) == after_created(
                *old(self),
                creation_outcome(
                    match completion {
                        Ok(response) => Ok(response@),
                        Err(text) => Err(text),
                    },
                ),
            ),
    {
        let outcome = create_result(completion);
        self.creation_judged(outcome)
    }

    /// Takes the answer to `Settle`: the time is over.
    pub fn settled(&mut self) -> (r: Action)
        ensures
            (*final(self), r) == after_settled(*old(self)),
    {
        match self.phase {
            Phase::Settling => {
                self.phase = Phase::Rediscovering;
                Action::Discover
            },
            _ => Action::Done(VHidResult::InvalidParameter),
        }
    }

    /// Begins a deactivation.
    pub fn deactivate(&mut self) -> (r: Action)
        ensures
            (*final(self), r) == after_deactivate(*old(self)),
    {
        if self.phase != Phase::Idle {
            Action::Done(VHidResult::InvalidParameter)
        } else if self.ids.is_empty() {
            Action::Done(VHidResult::Success)
        } else if !self.bus.is_open() {
            Action::Done(VHidResult::NotInitialized)
        } else {
            match (self.ids.keyboard_id, self.ids.mouse_id) {
                (Some(id), _) => {
                    self.phase = Phase::DestroyingKeyboard;
                    self.failed = false;
                    Action::Destroy(id, DeviceType::Keyboard)
                },
                (None, Some(id)) => {
                    self.phase = Phase::DestroyingMouse;
                    self.failed = false;
                    Action::Destroy(id, DeviceType::Mouse)
                },
                (None, None) => Action::Done(VHidResult::Success),
            }
        }
    }

    /// Takes the answer to `Destroy`: done, or the operating system's text
    /// where the transaction failed.
    pub fn destroyed(&mut self, completion: Result<(), String>) -> (r: Action)
        ensures
            (*final(self), r) == after_destroyed(
                *old(self),
                match completion {
                    Ok(_) => Ok(()),
                    Err(text) => Err(VHidError::ChannelError(text)),
                },
            ),
    {
        let mut failed: bool = self.failed;
        match transaction_result(completion) {
            Ok(_) => {},
            Err(e) => {
                failed = true;
                match self.phase {
                    Phase::DestroyingKeyboard | Phase::DestroyingMouse => {
                        self.last_error = Some(e);
                    },
                    _ => {},
                }
            },
        }
        match self.phase {
            Phase::DestroyingKeyboard => {
                match self.ids.mouse_id {
                    Some(id) => {
                        if self.bus.is_open() {
                            self.phase = Phase::DestroyingMouse;
                            self.failed = failed;
                            return Action::Destroy(id, DeviceType::Mouse);
                        }
                        failed = true;
                    },
                    None => {},
                }
                self.finish_deactivation(failed)
            },
            Phase::DestroyingMouse => self.finish_deactivation(failed),
            _ => Action::Done(VHidResult::InvalidParameter),
        }
    }

    /// Ends a deactivation: forgets the ids and reports whether a
    /// destruction failed.
    fn finish_deactivation(&mut self, failed: bool) -> (r: Action)
        ensures
            (*final(self), r) == deactivated(*old(self), failed),
    {
        self.phase = Phase::Idle;
        self.ids = DeviceIds::new();
        self.failed = false;
        if failed {
            Action::Done(VHidResult::Error)
        } else {
            Action::Done(VHidResult::Success)
        }
    }
}

/// Whether two sessions differ in nothing but what is held down.
pub open spec fn same_but_input(a: DeviceHandleManager, b: DeviceHandleManager) -> bool {
    &&& a.bus == b.bus
    &&& a.device == b.device
    &&& a.ids == b.ids
    &&& a.phase == b.phase
    &&& a.created == b.created
    &&& a.failed == b.failed
    &&& a.last_error == b.last_error
}

/// Whether `r` is the write of this mouse report on the handle `handle`.
pub open spec fn writes_mouse(r: Result<Transaction, VHidError>, handle: isize, report: MouseInput)
    -> bool {
    r matches Ok(t) && t.is(handle, IOCTL_MOVE_MOUSE, mouse_report(report), 0)
}

/// Whether `r` is the write of this keyboard report on the handle `handle`.
pub open spec fn writes_keyboard(
    r: Result<Transaction, VHidError>,
    handle: isize,
    report: KeyboardInput,
) -> bool {
    r matches Ok(t) && t.is(handle, IOCTL_SEND_KEYBOARD, keyboard_report(report), 0)
}

/// Whether `r` turns the request down because the channel is not open.
pub open spec fn not_initialized<T>(r: Result<T, VHidError>) -> bool {
    r == Err::<T, VHidError>(VHidError::NotInitialized)
}

impl DeviceHandleManager {
    /// The write of a whole mouse report. An absent report is turned down
    /// first, a closed channel second; what is held down is not touched.
    pub fn send_mouse_report(&self, report: Option<&MouseInput>) -> (r: Result<
        Transaction,
        VHidError,
    >)
        ensures
            match (report, self.device.open_handle()) {
                (None, _) => r == Err::<Transaction, VHidError>(VHidError::InvalidParameter),
                (Some(_), None) => not_initialized(r),
                (Some(report), Some(handle)) => writes_mouse(r, handle, *report),
            },
    {
        self.device.send_mouse_report(report)
    }

    /// The write of a whole keyboard report. An absent report is turned down
    /// first, a closed channel second; what is held down is not touched.
    pub fn send_keyboard_report(&self, report: Option<&KeyboardInput>) -> (r: Result<
        Transaction,
        VHidError,
    >)
        ensures
            match (report, self.device.open_handle()) {
                (None, _) => r == Err::<Transaction, VHidError>(VHidError::InvalidParameter),
                (Some(_), None) => not_initialized(r),
                (Some(report), Some(handle)) => writes_keyboard(r, handle, *report),
            },
    {
        self.device.send_keyboard_report(report)
    }

    /// The write that moves the mouse by `x` and `y` with the buttons that
    /// are held.
    pub fn mouse_move(&self, x: i8, y: i8) -> (r: Result<Transaction, VHidError>)
        ensures
            match self.device.open_handle() {
                None => not_initialized(r),
                Some(handle) => writes_mouse(r, handle, self.input.spec_mouse_report(x, y, 0)),
            },
    {
        let report = self.input.mouse_move(x, y);
        self.device.send_mouse_report(Some(&report))
    }

    /// The write that turns the wheel by `wheel` with the buttons that are
    /// held.
    pub fn mouse_wheel(&self, wheel: i8) -> (r: Result<Transaction, VHidError>)
        ensures
            match self.device.open_handle() {
                None => not_initialized(r),
                Some(handle) => writes_mouse(r, handle, self.input.spec_mouse_report(0, 0, wheel)),
            },
    {
        let report = self.input.wheel(wheel);
        self.device.send_mouse_report(Some(&report))
    }

    /// The buttons of `button` go down. With the channel closed nothing
    /// changes; else the buttons are held and the write carries them.
    pub fn mouse_down(&mut self, button: i8) -> (r: Result<Transaction, VHidError>)
        ensures
            same_but_input(*final(self), *old(self)),
            match old(self).device.open_handle() {
                None => not_initialized(r) && final(self).input == old(self).input,
                Some(handle) => {
                    &&& final(self).input.buttons == old(self).input.buttons | byte_of(button)
                    &&& final(self).input.modifiers == old(self).input.modifiers
                    &&& final(self).input.keys == old(self).input.keys
                    &&& writes_mouse(r, handle, final(self).input.spec_mouse_report(0, 0, 0))
                },
            },
    {
        if !self.device.is_open() {
            return Err(VHidError::NotInitialized);
        }
        let report = self.input.button_down(to_byte(button));
        self.device.send_mouse_report(Some(&report))
    }

    /// The buttons of `button` go up. With the channel closed nothing
    /// changes; else the buttons are let go and the write carries the rest.
    pub fn mouse_up(&mut self, button: i8) -> (r: Result<Transaction, VHidError>)
        ensures
            same_but_input(*final(self), *old(self)),
            match old(self).device.open_handle() {
                None => not_initialized(r) && final(self).input == old(self).input,
                Some(handle) => {
                    &&& final(self).input.buttons == old(self).input.buttons & !byte_of(button)
                    &&& final(self).input.modifiers == old(self).input.modifiers
                    &&& final(self).input.keys == old(self).input.keys
                    &&& writes_mouse(r, handle, final(self).input.spec_mouse_report(0, 0, 0))
                },
            },
    {
        if !self.device.is_open() {
            return Err(VHidError::NotInitialized);
        }
        let report = self.input.button_up(to_byte(button));
        self.device.send_mouse_report(Some(&report))
    }

    /// The key `key` goes down. With the channel closed nothing changes;
    /// else the key takes its slot, if it gets one, and the write carries
    /// what is held.
    pub fn key_down(&mut self, key: u8) -> (r: Result<Transaction, VHidError>)
        ensures
            same_but_input(*final(self), *old(self)),
            match old(self).device.open_handle() {
                None => not_initialized(r) && final(self).input == old(self).input,
                Some(handle) => {
                    &&& final(self).input.keys@ == pressed(old(self).input.keys@, key)
                    &&& final(self).input.buttons == old(self).input.buttons
                    &&& final(self).input.modifiers == old(self).input.modifiers
                    &&& writes_keyboard(r, handle, final(self).input.spec_keyboard_report())
                },
            },
    {
        if !self.device.is_open() {
            return Err(VHidError::NotInitialized);
        }
        let report = self.input.key_down(key);
        self.device.send_keyboard_report(Some(&report))
    }

    /// The key `key` goes up. With the channel closed nothing changes; else
    /// the key leaves its slot and the write carries what is still held.
    pub fn key_up(&mut self, key: u8) -> (r: Result<Transaction, VHidError>)
        ensures
            same_but_input(*final(self), *old(self)),
            match old(self).device.open_handle() {
                None => not_initialized(r) && final(self).input == old(self).input,
                Some(handle) => {
                    &&& final(self).input.keys@ == released(old(self).input.keys@, key)
                    &&& final(self).input.buttons == old(self).input.buttons
                    &&& final(self).input.modifiers == old(self).input.modifiers
                    &&& writes_keyboard(r, handle, final(self).input.spec_keyboard_report())
                },
            },
    {
        if !self.device.is_open() {
            return Err(VHidError::NotInitialized);
        }
        let report = self.input.key_up(key);
        self.device.send_keyboard_report(Some(&report))
    }

    /// The modifiers of `modifier` go down. With the channel closed nothing
    /// changes; else they are held and the write carries what is held.
    pub fn modifier_down(&mut self, modifier: u8) -> (r: Result<Transaction, VHidError>)
        ensures
            same_but_input(*final(self), *old(self)),
            match old(self).device.open_handle() {
                None => not_initialized(r) && final(self).input == old(self).input,
                Some(handle) => {
                    &&& final(self).input.modifiers == old(self).input.modifiers | modifier
                    &&& final(self).input.buttons == old(self).input.buttons
                    &&& final(self).input.keys == old(self).input.keys
                    &&& writes_keyboard(r, handle, final(self).input.spec_keyboard_report())
                },
            },
    {
        if !self.device.is_open() {
            return Err(VHidError::NotInitialized);
        }
        let report = self.input.modifier_down(modifier);
        self.device.send_keyboard_report(Some(&report))
    }

    /// The modifiers of `modifier` go up. With the channel closed nothing
    /// changes; else they are let go and the write carries what is still
    /// held.
    pub fn modifier_up(&mut self, modifier: u8) -> (r: Result<Transaction, VHidError>)
        ensures
            same_but_input(*final(self), *old(self)),
            match old(self).device.open_handle() {
                None => not_initialized(r) && final(self).input == old(self).input,
                Some(handle) => {
                    &&& final(self).input.modifiers == old(self).input.modifiers & !modifier
                    &&& final(self).input.buttons == old(self).input.buttons
                    &&& final(self).input.keys == old(self).input.keys
                    &&& writes_keyboard(r, handle, final(self).input.spec_keyboard_report())
                },
            },
    {
        if !self.device.is_open() {
            return Err(VHidError::NotInitialized);
        }
        let report = self.input.modifier_up(modifier);
        self.device.send_keyboard_report(Some(&report))
    }

    /// Lets go of everything. With the channel closed nothing changes; else
    /// nothing is held any more and two writes, the mouse's first and the
    /// keyboard's second, carry nothing but zeros. Each is to be submitted
    /// whatever becomes of the other.
    pub fn reset_state(&mut self) -> (r: Result<(Transaction, Transaction), VHidError>)
        ensures
            same_but_input(*final(self), *old(self)),
            match old(self).device.open_handle() {
                None => not_initialized(r) && final(self).input == old(self).input,
                Some(handle) => {
                    &&& final(self).input.is_idle()
                    &&& r matches Ok(pair)
                    &&& pair.0.is(handle, IOCTL_MOVE_MOUSE, seq![0u8, 0u8, 0u8, 0u8, 0u8], 0)
                    &&& pair.1.is(
                        handle,
                        IOCTL_SEND_KEYBOARD,
                        seq![0u8, 0u8, 0u8, 0u8, 0u8, 0u8, 0u8, 0u8],
                        0,
                    )
                },
            },
    {
        if !self.device.is_open() {
            return Err(VHidError::NotInitialized);
        }
        let (mouse, keyboard) = self.input.reset();
        let first = self.device.send_mouse_report(Some(&mouse));
        let second = self.device.send_keyboard_report(Some(&keyboard));
        proof {
            assert(mouse_report(mouse) =~= seq![0u8, 0u8, 0u8, 0u8, 0u8]);
            assert(keyboard_report(keyboard) =~= seq![0u8, 0u8, 0u8, 0u8, 0u8, 0u8, 0u8, 0u8]);
        }
        match (first, second) {
            (Ok(a), Ok(b)) => Ok((a, b)),
            _ => Err(VHidError::NotInitialized),
        }
    }
}

/// The status of a reset, of which the mouse's report and the keyboard's
/// were written independently.
pub fn reset_result(mouse_written: bool, keyboard_written: bool) -> (r: VHidResult)
    ensures
        r == reset_status(mouse_written, keyboard_written),
{
    if keyboard_written {
        VHidResult::Success
    } else {
        VHidResult::Error
    }
}

/// Deactivating while no device is known does nothing and succeeds: nothing
/// is asked of the bus.
pub proof fn lemma_deactivate_without_devices(m: DeviceHandleManager)
    requires
        m.phase == Phase::Idle,
        m.ids.spec_is_empty(),
    ensures
        after_deactivate(m) == (m, Action::Done(VHidResult::Success)),
{
}

/// Activating while a device is known does nothing and succeeds.
pub proof fn lemma_activate_with_devices(m: DeviceHandleManager)
    requires
        m.phase == Phase::Idle,
        !m.ids.spec_is_empty(),
    ensures
        after_activate(m) == (m, Action::Done(VHidResult::Success)),
{
}

/// An activation that finds no device asks, in this order, for a walk, the
/// creation of the keyboard, the creation of the mouse, the settle delay and
/// a second walk, whatever became of the two creations; it ends in success
/// and knows what the second walk found.
pub proof fn lemma_activation_creates_both(
    m: DeviceHandleManager,
    keyboard: Result<u32, VHidError>,
    mouse: Result<u32, VHidError>,
    found: DeviceIds,
)
    requires
        m.phase == Phase::Idle,
        m.ids.spec_is_empty(),
        m.bus.spec_is_open(),
    ensures
        ({
            let (m1, a1) = after_activate(m);
            let (m2, a2) = after_discovered(m1, Ok(no_ids()));
            let (m3, a3) = after_created(m2, keyboard);
            let (m4, a4) = after_created(m3, mouse);
            let (m5, a5) = after_settled(m4);
            let (m6, a6) = after_discovered(m5, Ok(found));
            &&& a1 == Action::Discover
            &&& a2 == Action::Create(DeviceType::Keyboard)
            &&& a3 == Action::Create(DeviceType::Mouse)
            &&& a4 == Action::Settle(SETTLE_DELAY_MS)
            &&& a5 == Action::Discover
            &&& a6 == Action::Done(VHidResult::Success)
            &&& m6.phase == Phase::Idle
            &&& m6.ids == found
            &&& m6.bus == m.bus
            &&& m6.device == m.device
            &&& m6.input == m.input
        }),
{
}

/// A deactivation with both devices known asks for the destruction of the
/// keyboard, then for that of the mouse, whatever became of the first; it
/// ends with no device known, in success where both destructions were
/// accepted and in error where one was not.
pub proof fn lemma_deactivation_destroys_both(
    m: DeviceHandleManager,
    keyboard_id: u32,
    mouse_id: u32,
    keyboard: Result<(), VHidError>,
    mouse: Result<(), VHidError>,
)
    requires
        m.phase == Phase::Idle,
        m.ids == (DeviceIds { keyboard_id: Some(keyboard_id), mouse_id: Some(mouse_id) }),
        m.bus.spec_is_open(),
    ensures
        ({
            let (m1, a1) = after_deactivate(m);
            let (m2, a2) = after_destroyed(m1, keyboard);
            let (m3, a3) = after_destroyed(m2, mouse);
            &&& a1 == Action::Destroy(keyboard_id, DeviceType::Keyboard)
            &&& a2 == Action::Destroy(mouse_id, DeviceType::Mouse)
            &&& a3 == Action::Done(
                if keyboard is Ok && mouse is Ok {
                    VHidResult::Success
                } else {
                    VHidResult::Error
                },
            )
            &&& m3.phase == Phase::Idle
            &&& m3.ids.spec_is_empty()
            &&& m3.bus == m.bus
            &&& m3.device == m.device
            &&& m3.input == m.input
        }),
{
}

/// The known ids change in two ways only: a walk's result is adopted, or a
/// deactivation forgets them. No other step touches them.
pub proof fn lemma_ids_follow_discovery(
    m: DeviceHandleManager,
    creation: Result<u32, VHidError>,
    destruction: Result<(), VHidError>,
    walk: Result<DeviceIds, VHidError>,
)
    ensures
        after_activate(m).0.ids == m.ids,
        after_created(m, creation).0.ids == m.ids,
        after_settled(m).0.ids == m.ids,
        after_deactivate(m).0.ids == m.ids,
        after_destroyed(m, destruction).0.ids == m.ids || after_destroyed(m, destruction).0.ids
            == no_ids(),
        after_discovered(m, walk).0.ids == m.ids || walk == Ok::<DeviceIds, VHidError>(
            after_discovered(m, walk).0.ids,
        ),
{
}

} // verus!
