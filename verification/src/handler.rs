//! The handler that binds a device and guards the start of its polling task.

use vstd::prelude::*;
use crate::error::InputError;
use crate::event::TouchEvent;
use crate::locator::{has_match, is_first_match, locate, DeviceId};
use crate::poller::{Poller, PollerState};
use crate::rotation::ScreenRotation;
use crate::transform::Transform;

verus! {

/// What a handler is, to its contracts.
pub struct HandlerState {
    /// Place of the bound device in the enumeration it was chosen from.
    pub device: usize,
    /// The rotation given at construction; it never changes.
    pub rotation: ScreenRotation,
    /// Whether the polling task has been started.
    pub polling: bool,
}

impl HandlerState {
    /// Whether a start request hands out a poller in this state.
    pub open spec fn can_spawn(self) -> bool {
        Transform::of_rotation(self.rotation) is Some && !self.polling
    }

    /// The state that a start request leaves behind.
    pub open spec fn after_start(self) -> HandlerState {
        if self.can_spawn() {
            HandlerState { polling: true, ..self }
        } else {
            self
        }
    }

    /// The state after `n` start requests in a row.
    pub open spec fn after_starts(self, n: nat) -> HandlerState
        decreases n,
    {
        if n == 0 {
            self
        } else {
            self.after_start().after_starts((n - 1) as nat)
        }
    }

    /// How many of `n` start requests in a row hand out a poller.
    pub open spec fn spawns(self, n: nat) -> nat
        decreases n,
    {
        if n == 0 {
            0
        } else {
            (if self.can_spawn() { 1nat } else { 0nat }) + self.after_start().spawns((n - 1) as nat)
        }
    }
}

/// The answer to a start request that was not refused.
#[derive(Debug)]
pub enum PollingStart {
    /// The caller must now run the polling task, with this poller as its
    /// state.
    Spawn(Poller),
    /// A polling task was started before; nothing is to be done.
    AlreadyPolling,
}

/// A device bound by vendor and product, a screen rotation, and the flag
/// that admits one polling task.
#[derive(Debug)]
pub struct InputHandler {
    device: usize,
    screen_rotation: ScreenRotation,
    is_polling_events: bool,
}

impl View for InputHandler {
    type V = HandlerState;

    closed spec fn view(&self) -> HandlerState {
        HandlerState {
            device: self.device,
            rotation: self.screen_rotation,
            polling: self.is_polling_events,
        }
    }
}

impl InputHandler {
    /// Binds the first device in `devices`, taken in enumeration order,
    /// whose identifiers are exactly `vendor` and `product`. Fails when no
    /// device matches. Any rotation is accepted here; polling is not
    /// started.
    pub fn new(
        vendor: u16,
        product: u16,
        devices: &Vec<DeviceId>,
        screen_rotation: ScreenRotation,
    ) -> (res: Result<InputHandler, InputError>)
        ensures
            res is Ok <==> has_match(devices@, vendor, product),
            match res {
                Ok(handler) => {
                    &&& is_first_match(devices@, vendor, product, handler@.device as int)
                    &&& handler@.rotation == screen_rotation
                    &&& !handler@.polling
                },
                Err(error) => error == (InputError::DeviceNotFound { vendor, product }),
            },
    {
        match locate(devices, vendor, product) {
            Ok(device) => Ok(InputHandler { device, screen_rotation, is_polling_events: false }),
            Err(error) => Err(error),
        }
    }

    /// Place of the bound device in the enumeration given at construction.
    pub fn device(&self) -> (device: usize)
        ensures
            device == self@.device,
    {
        self.device
    }

    /// The rotation given at construction.
    pub fn screen_rotation(&self) -> (rotation: ScreenRotation)
        ensures
            rotation == self@.rotation,
    {
        self.screen_rotation
    }

    /// Whether the polling task has been started.
    pub fn is_polling_events(&self) -> (polling: bool)
        ensures
            polling == self@.polling,
    {
        self.is_polling_events
    }

    /// Asks for the polling task to be started. A rotation without
    /// formulas is refused, before anything else happens. Otherwise the
    /// first request raises the flag and hands out the poller, at the
    /// origin and with the rotation's transform; every later request
    /// changes nothing and hands out nothing.
    pub fn start_polling_events(&mut self) -> (res: Result<PollingStart, InputError>)
        ensures
            final(self)@ == old(self)@.after_start(),
            match res {
                Ok(PollingStart::Spawn(poller)) => {
                    &&& old(self)@.can_spawn()
                    &&& poller@ == (PollerState {
                        transform: Transform::of_rotation(old(self)@.rotation)->0,
                        cached: TouchEvent::origin(),
                    })
                },
                Ok(PollingStart::AlreadyPolling) => {
                    &&& Transform::of_rotation(old(self)@.rotation) is Some
                    &&& old(self)@.polling
                },
                Err(error) => {
                    &&& Transform::of_rotation(old(self)@.rotation) is None
                    &&& error == (InputError::UnsupportedRotation {
                        rotation: old(self)@.rotation,
                    })
                },
            },
    {
        let transform = match Transform::for_rotation(self.screen_rotation) {
            Ok(transform) => transform,
            Err(error) => {
                return Err(error);
            },
        };
        if self.is_polling_events {
            Ok(PollingStart::AlreadyPolling)
        } else {
            self.is_polling_events = true;
            Ok(PollingStart::Spawn(Poller::new(transform)))
        }
    }
}

/// Once raised, the polling flag stays raised over any number of start
/// requests, and the device and the rotation never change.
pub proof fn lemma_flag_never_drops(state: HandlerState, n: nat)
    ensures
        state.after_starts(n).device == state.device,
        state.after_starts(n).rotation == state.rotation,
        state.polling ==> state.after_starts(n).polling,
    decreases n,
{
    if n > 0 {
        lemma_flag_never_drops(state.after_start(), (n - 1) as nat);
    }
}

/// A start request that directly follows another never hands out a poller.
pub proof fn lemma_second_start_spawns_nothing(state: HandlerState)
    ensures
        !state.after_start().can_spawn(),
        state.after_start().after_start() == state.after_start(),
{
}

/// However many start requests are made in a row, at most one of them
/// hands out a poller; none does once the flag is raised or where the
/// rotation has no formulas.
pub proof fn lemma_at_most_one_spawn(state: HandlerState, n: nat)
    ensures
        state.spawns(n) <= 1,
        !state.can_spawn() ==> state.spawns(n) == 0,
    decreases n,
{
    if n > 0 {
        lemma_at_most_one_spawn(state.after_start(), (n - 1) as nat);
    }
}

} // verus!
