//! The execution-state inhibitor. The OS call itself is made by the caller,
//! which hands the returned flags to `activate` and reasserts whatever
//! `release` hands back; this type decides what to request and what to restore.

use vstd::prelude::*;

verus! {

/// Keeps the system out of sleep while the request is in force.
pub const ES_SYSTEM_REQUIRED: u32 = 0x0000_0001;

/// Keeps the display from blanking while the request is in force.
pub const ES_DISPLAY_REQUIRED: u32 = 0x0000_0002;

/// Makes a request last until the next call instead of resetting a timer once.
pub const ES_CONTINUOUS: u32 = 0x8000_0000;

/// The flags that an activation requests from the OS: continuous and
/// system-required, plus display-required when the display is kept awake.
pub open spec fn request_flags(keep_display_awake: bool) -> u32 {
    if keep_display_awake {
        0x8000_0003
    } else {
        0x8000_0001
    }
}

#[derive(Clone, Copy, Debug, PartialEq, Eq, Structural)]
pub enum InhibitError {
    /// The OS answered the request with the zero state: nothing was changed.
    ZeroState,
}

/// The inhibitor as a value: whether a request is in force, the flags to
/// restore on release, and how many acquisitions and releases took place.
pub struct KeepAwakeView {
    pub engaged: bool,
    pub previous: u32,
    pub acquires: nat,
    pub releases: nat,
}

impl KeepAwakeView {
    /// Every acquisition is matched by exactly one release, but the one in force.
    pub open spec fn balanced(self) -> bool {
        self.acquires == self.releases + if self.engaged { 1nat } else { 0nat }
    }
}

/// The handle on the OS execution state. It is not `Clone`: one handle holds
/// the snapshot, and only its release restores it.
pub struct KeepAwake {
    previous: u32,
    engaged: bool,
    acquires: Ghost<nat>,
    releases: Ghost<nat>,
}

impl View for KeepAwake {
    type V = KeepAwakeView;

    closed spec fn view(&self) -> KeepAwakeView {
        KeepAwakeView {
            engaged: self.engaged,
            previous: self.previous,
            acquires: self.acquires@,
            releases: self.releases@,
        }
    }
}

impl KeepAwake {
    /// A released handle.
    pub fn new() -> (r: KeepAwake)
        ensures
            r@ == (KeepAwakeView { engaged: false, previous: 0, acquires: 0, releases: 0 }),
    {
        KeepAwake { previous: 0, engaged: false, acquires: Ghost(0), releases: Ghost(0) }
    }

    /// The flags to hand to the OS when activating.
    pub fn activation_flags(keep_display_awake: bool) -> (r: u32)
        ensures
            r == request_flags(keep_display_awake),
            r == ES_CONTINUOUS | ES_SYSTEM_REQUIRED | if keep_display_awake {
                ES_DISPLAY_REQUIRED
            } else {
                0
            },
    {
        let mut flags: u32 = ES_CONTINUOUS;
        flags = flags | ES_SYSTEM_REQUIRED;
        if keep_display_awake {
            flags = flags | ES_DISPLAY_REQUIRED;
        }
        assert(0x8000_0000u32 | 0x0000_0001u32 == 0x8000_0001u32) by (bit_vector);
        assert(0x8000_0001u32 | 0x0000_0002u32 == 0x8000_0003u32) by (bit_vector);
        assert(0x8000_0000u32 | 0x0000_0001u32 | 0u32 == 0x8000_0001u32) by (bit_vector);
        flags
    }

    /// Whether a request is in force.
    pub fn is_engaged(&self) -> (r: bool)
        ensures
            r == self@.engaged,
    {
        self.engaged
    }

    /// Records what the OS returned for an activation request: the flags in
    /// force before it, or zero when the request failed. An activation on an
    /// engaged handle keeps the first snapshot, so one release undoes both.
    pub fn activate(&mut self, os_previous: u32) -> (r: Result<(), InhibitError>)
        ensures
            os_previous == 0 ==> r == Err::<(), InhibitError>(InhibitError::ZeroState) && final(self)@
                == old(self)@,
            os_previous != 0 ==> r is Ok && final(self)@ == if old(self)@.engaged {
                old(self)@
            } else {
                KeepAwakeView {
                    engaged: true,
                    previous: os_previous,
                    acquires: old(self)@.acquires + 1,
                    releases: old(self)@.releases,
                }
            },
            old(self)@.balanced() ==> final(self)@.balanced(),
    {
        if os_previous == 0 {
            return Err(InhibitError::ZeroState);
        }
        if !self.engaged {
            self.previous = os_previous;
            self.engaged = true;
            self.acquires = Ghost(self.acquires@ + 1);
        }
        Ok(())
    }

    /// Records a timed activation; on success returns the number of seconds
    /// after which the expiry is to be delivered.
    pub fn activate_for(&mut self, os_previous: u32, duration: u64) -> (r: Option<u64>)
        ensures
            os_previous == 0 ==> r is None && final(self)@ == old(self)@,
            os_previous != 0 ==> r == Some(duration) && final(self)@ == if old(self)@.engaged {
                old(self)@
            } else {
                KeepAwakeView {
                    engaged: true,
                    previous: os_previous,
                    acquires: old(self)@.acquires + 1,
                    releases: old(self)@.releases,
                }
            },
            old(self)@.balanced() ==> final(self)@.balanced(),
    {
        match self.activate(os_previous) {
            Ok(()) => Some(duration),
            Err(_) => None,
        }
    }

    /// Ends the request in force: returns the flags to reassert, once. On a
    /// released handle it does nothing and returns `None`.
    pub fn release(&mut self) -> (r: Option<u32>)
        ensures
            old(self)@.engaged ==> r == Some(old(self)@.previous) && final(self)@ == (
            KeepAwakeView {
                engaged: false,
                previous: old(self)@.previous,
                acquires: old(self)@.acquires,
                releases: old(self)@.releases + 1,
            }),
            !old(self)@.engaged ==> r is None && final(self)@ == old(self)@,
            old(self)@.balanced() ==> final(self)@.balanced(),
    {
        if self.engaged {
            self.engaged = false;
            self.releases = Ghost(self.releases@ + 1);
            Some(self.previous)
        } else {
            None
        }
    }
}

} // verus!
