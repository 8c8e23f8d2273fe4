//! Entity accessors: typed read/write views over fixed-offset fields of
//! host-resident objects whose addresses the one-shot hooks captured.
//!
//! The accessors never dereference anything. A getter names the addresses to
//! load and a setter produces the exact writes to perform; the unverified
//! boundary executes them. Scalars cross this interface as raw IEEE-754 bit
//! patterns. Addresses are trusted by construction (spec'd as captured
//! pointers plus fixed per-build offsets); a never-captured base is ruled out
//! by the constructors' preconditions.

use vstd::prelude::*;

verus! {

use crate::hooks::CapturedSlot;

/// Field offsets into the captured view-controller object: pitch, yaw, roll,
/// each a 32-bit float.
pub const CONTROLLER_PITCH: usize = 0x2d0;
pub const CONTROLLER_YAW: usize = 0x2d4;
pub const CONTROLLER_ROLL: usize = 0x2d8;

/// Field offsets into the captured actor object: position, velocity and
/// acceleration, each three consecutive 32-bit floats.
pub const CHARACTER_LOCATION: usize = 0x168;
pub const CHARACTER_VELOCITY: usize = 0x174;
pub const CHARACTER_ACCELERATION: usize = 0x180;

/// Highest offset any accessor adds to a captured base, plus the width of
/// that field; constructors require the base to leave room for it.
pub const MAX_FIELD_END: usize = 0x2dc;

/// A 32-bit store the boundary is asked to perform.
#[derive(Debug, Clone, Copy, PartialEq, Eq)]
pub struct Write32 {
    /// Target address.
    pub addr: usize,
    /// Raw bit pattern to store.
    pub bits: u32,
}

/// A 64-bit store the boundary is asked to perform.
#[derive(Debug, Clone, Copy, PartialEq, Eq)]
pub struct Write64 {
    /// Target address.
    pub addr: usize,
    /// Raw bit pattern to store.
    pub bits: u64,
}

/// The host-object pointers captured once per process lifetime by the
/// one-shot hooks, with no invalidation until process exit.
pub struct Captured {
    /// The input-dispatch subsystem (`this` of the UI application object).
    pub slateapp: CapturedSlot,
    /// The view-controller object.
    pub controller: CapturedSlot,
    /// The controllable actor object.
    pub character: CapturedSlot,
}

impl Captured {
    /// The capture state at attach time: nothing captured yet.
    pub fn empty() -> (r: Captured)
        ensures
            r.slateapp.value is None,
            r.controller.value is None,
            r.character.value is None,
    {
        Captured {
            slateapp: CapturedSlot::empty(),
            controller: CapturedSlot::empty(),
            character: CapturedSlot::empty(),
        }
    }
}

/// The side effect of the view-controller capture hook's replacement body:
/// records the `this` pointer the host handed to its own accessor routine.
pub fn save_controller(captured: &mut Captured, this: usize)
    requires
        old(captured).controller.value is None,
    ensures
        final(captured).controller.value == Some(this),
        final(captured).slateapp == old(captured).slateapp,
        final(captured).character == old(captured).character,
{
    captured.controller.capture(this);
}

/// Typed access to the captured view-controller: orientation as pitch, yaw
/// and roll at fixed offsets from the captured base.
pub struct AController {
    /// Captured base address of the host object.
    pub base: usize,
}

impl AController {
    /// Builds the accessor from the captured pointer. Requires capture to
    /// have happened and the object to lie inside the address space, which
    /// holds by construction for a pointer the host itself handed out.
    pub fn from_capture(slot: &CapturedSlot) -> (r: AController)
        requires
            slot.value is Some,
            slot.value.unwrap() + MAX_FIELD_END <= usize::MAX,
        ensures
            slot.value == Some(r.base),
    {
        AController { base: slot.addr() }
    }

    /// Whether every field address below stays in bounds.
    pub open spec fn wf(self) -> bool {
        self.base + MAX_FIELD_END <= usize::MAX
    }

    /// The addresses of the pitch, yaw and roll fields, in that order; the
    /// boundary loads each as a raw 32-bit value.
    pub fn rotation(&self) -> (r: (usize, usize, usize))
        requires
            self.wf(),
        ensures
            r.0 == self.base + CONTROLLER_PITCH,
            r.1 == self.base + CONTROLLER_YAW,
            r.2 == self.base + CONTROLLER_ROLL,
    {
        (self.base + CONTROLLER_PITCH, self.base + CONTROLLER_YAW, self.base + CONTROLLER_ROLL)
    }

    /// The writes that set pitch, yaw and roll, in that order. Writing the
    /// orientation touches nothing else.
    pub fn set_rotation(&self, pitch: u32, yaw: u32, roll: u32) -> (w: Vec<Write32>)
        requires
            self.wf(),
        ensures
            w@ == seq![
                (Write32 { addr: (self.base + CONTROLLER_PITCH) as usize, bits: pitch }),
                (Write32 { addr: (self.base + CONTROLLER_YAW) as usize, bits: yaw }),
                (Write32 { addr: (self.base + CONTROLLER_ROLL) as usize, bits: roll }),
            ],
    {
        let mut w: Vec<Write32> = Vec::new();
        w.push(Write32 { addr: self.base + CONTROLLER_PITCH, bits: pitch });
        w.push(Write32 { addr: self.base + CONTROLLER_YAW, bits: yaw });
        w.push(Write32 { addr: self.base + CONTROLLER_ROLL, bits: roll });
        proof {
            assert(w@ =~= seq![
                (Write32 { addr: (self.base + CONTROLLER_PITCH) as usize, bits: pitch }),
                (Write32 { addr: (self.base + CONTROLLER_YAW) as usize, bits: yaw }),
                (Write32 { addr: (self.base + CONTROLLER_ROLL) as usize, bits: roll }),
            ]);
        }
        w
    }
}

/// Typed access to the captured actor: position, velocity and acceleration,
/// each a 3-vector of 32-bit floats at fixed offsets from the captured base.
pub struct AMyCharacter {
    /// Captured base address of the host object.
    pub base: usize,
}

impl AMyCharacter {
    /// Builds the accessor from the captured pointer; see
    /// [`AController::from_capture`].
    pub fn from_capture(slot: &CapturedSlot) -> (r: AMyCharacter)
        requires
            slot.value is Some,
            slot.value.unwrap() + MAX_FIELD_END <= usize::MAX,
        ensures
            slot.value == Some(r.base),
    {
        AMyCharacter { base: slot.addr() }
    }

    /// Whether every field address below stays in bounds.
    pub open spec fn wf(self) -> bool {
        self.base + MAX_FIELD_END <= usize::MAX
    }

    /// The addresses of one 3-vector field starting at `offset`: its x, y
    /// and z components in that order.
    fn vector_addrs(&self, offset: usize) -> (r: (usize, usize, usize))
        requires
            self.wf(),
            offset + 8 <= MAX_FIELD_END,
        ensures
            r.0 == self.base + offset,
            r.1 == self.base + offset + 4,
            r.2 == self.base + offset + 8,
    {
        (self.base + offset, self.base + offset + 4, self.base + offset + 8)
    }

    /// The writes that fill one 3-vector field starting at `offset`.
    fn set_vector(&self, offset: usize, x: u32, y: u32, z: u32) -> (w: Vec<Write32>)
        requires
            self.wf(),
            offset + 8 <= MAX_FIELD_END,
        ensures
            w@ == seq![
                (Write32 { addr: (self.base + offset) as usize, bits: x }),
                (Write32 { addr: (self.base + offset + 4) as usize, bits: y }),
                (Write32 { addr: (self.base + offset + 8) as usize, bits: z }),
            ],
    {
        let mut w: Vec<Write32> = Vec::new();
        w.push(Write32 { addr: self.base + offset, bits: x });
        w.push(Write32 { addr: self.base + offset + 4, bits: y });
        w.push(Write32 { addr: self.base + offset + 8, bits: z });
        proof {
            assert(w@ =~= seq![
                (Write32 { addr: (self.base + offset) as usize, bits: x }),
                (Write32 { addr: (self.base + offset + 4) as usize, bits: y }),
                (Write32 { addr: (self.base + offset + 8) as usize, bits: z }),
            ]);
        }
        w
    }

    /// Addresses of the position components, in x, y, z order.
    pub fn location(&self) -> (r: (usize, usize, usize))
        requires
            self.wf(),
        ensures
            r.0 == self.base + CHARACTER_LOCATION,
            r.1 == self.base + CHARACTER_LOCATION + 4,
            r.2 == self.base + CHARACTER_LOCATION + 8,
    {
        self.vector_addrs(CHARACTER_LOCATION)
    }

    /// The writes that set the position. Setting one vector has no side
    /// effect on the others.
    pub fn set_location(&self, x: u32, y: u32, z: u32) -> (w: Vec<Write32>)
        requires
            self.wf(),
        ensures
            w@ == seq![
                (Write32 { addr: (self.base + CHARACTER_LOCATION) as usize, bits: x }),
                (Write32 { addr: (self.base + CHARACTER_LOCATION + 4) as usize, bits: y }),
                (Write32 { addr: (self.base + CHARACTER_LOCATION + 8) as usize, bits: z }),
            ],
    {
        self.set_vector(CHARACTER_LOCATION, x, y, z)
    }

    /// Addresses of the velocity components, in x, y, z order.
    pub fn velocity(&self) -> (r: (usize, usize, usize))
        requires
            self.wf(),
        ensures
            r.0 == self.base + CHARACTER_VELOCITY,
            r.1 == self.base + CHARACTER_VELOCITY + 4,
            r.2 == self.base + CHARACTER_VELOCITY + 8,
    {
        self.vector_addrs(CHARACTER_VELOCITY)
    }

    /// The writes that set the velocity.
    pub fn set_velocity(&self, x: u32, y: u32, z: u32) -> (w: Vec<Write32>)
        requires
            self.wf(),
        ensures
            w@ == seq![
                (Write32 { addr: (self.base + CHARACTER_VELOCITY) as usize, bits: x }),
                (Write32 { addr: (self.base + CHARACTER_VELOCITY + 4) as usize, bits: y }),
                (Write32 { addr: (self.base + CHARACTER_VELOCITY + 8) as usize, bits: z }),
            ],
    {
        self.set_vector(CHARACTER_VELOCITY, x, y, z)
    }

    /// Addresses of the acceleration components, in x, y, z order.
    pub fn acceleration(&self) -> (r: (usize, usize, usize))
        requires
            self.wf(),
        ensures
            r.0 == self.base + CHARACTER_ACCELERATION,
            r.1 == self.base + CHARACTER_ACCELERATION + 4,
            r.2 == self.base + CHARACTER_ACCELERATION + 8,
    {
        self.vector_addrs(CHARACTER_ACCELERATION)
    }

    /// The writes that set the acceleration.
    pub fn set_acceleration(&self, x: u32, y: u32, z: u32) -> (w: Vec<Write32>)
        requires
            self.wf(),
        ensures
            w@ == seq![
                (Write32 { addr: (self.base + CHARACTER_ACCELERATION) as usize, bits: x }),
                (Write32 { addr: (self.base + CHARACTER_ACCELERATION + 4) as usize, bits: y }),
                (Write32 { addr: (self.base + CHARACTER_ACCELERATION + 8) as usize, bits: z }),
            ],
    {
        self.set_vector(CHARACTER_ACCELERATION, x, y, z)
    }
}

/// Typed access to the global application clock: a single 64-bit float
/// delta-time value at a fixed per-build address.
pub struct FApp {
    /// Address of the clock value inside the host binary.
    pub delta_addr: usize,
}

impl FApp {
    /// Builds the clock accessor from the per-build address of the value.
    pub fn at(delta_addr: usize) -> (r: FApp)
        ensures
            r.delta_addr == delta_addr,
    {
        FApp { delta_addr }
    }

    /// The address to load the current delta-time from.
    pub fn delta(&self) -> (r: usize)
        ensures
            r == self.delta_addr,
    {
        self.delta_addr
    }

    /// The write that overwrites the delta-time.
    pub fn set_delta(&self, bits: u64) -> (w: Write64)
        ensures
            w == (Write64 { addr: self.delta_addr, bits }),
    {
        Write64 { addr: self.delta_addr, bits }
    }
}

/// The captured input-dispatch subsystem: synthetic key and mouse input is
/// dispatched by calling back into the host with this `this` pointer.
pub struct FSlateApplication {
    /// Captured `this` pointer of the host's UI application object.
    pub this: usize,
}

impl FSlateApplication {
    /// Builds the dispatcher from the captured pointer.
    pub fn from_capture(slot: &CapturedSlot) -> (r: FSlateApplication)
        requires
            slot.value is Some,
        ensures
            slot.value == Some(r.this),
    {
        FSlateApplication { this: slot.addr() }
    }
}

} // verus!
