//! Demonstration handlers.
//!
//! Small components with inspectable state, each interested in one event
//! type or family. They show what an application component looks like:
//! plain data for the state, a declared received-event type, a transition
//! relation, and an `on` body proved against it.

use vstd::prelude::*;

use crate::component::Component;
use crate::events::KeyDown;
use crate::events::KeyEvent;
use crate::events::KeyUp;

verus! {

/// Counts the key presses it receives and remembers the last pressed key.
#[derive(Clone, Copy, Debug, PartialEq, Eq, Structural)]
pub struct DownCounter {
    /// How many presses were received; saturates at the largest count.
    pub count: u64,
    /// The key code of the last press received.
    pub last_key: u64,
}

impl DownCounter {
    /// A counter that has received nothing yet.
    pub fn new() -> (r: DownCounter)
        ensures
            r == (DownCounter { count: 0, last_key: 0 }),
    {
        DownCounter { count: 0, last_key: 0 }
    }
}

impl Component for DownCounter {
    type Receives = KeyDown;

    open spec fn steps(pre: Self, ev: KeyDown, post: Self) -> bool {
        &&& post.count == (if pre.count < u64::MAX {
            (pre.count + 1) as u64
        } else {
            pre.count
        })
        &&& post.last_key == ev.key
    }

    fn on(&mut self, ev: KeyDown) {
        if self.count < u64::MAX {
            self.count = self.count + 1;
        }
        self.last_key = ev.key;
    }
}

/// Counts the key releases it receives and remembers the last released
/// key.
#[derive(Clone, Copy, Debug, PartialEq, Eq, Structural)]
pub struct UpCounter {
    /// How many releases were received; saturates at the largest count.
    pub count: u64,
    /// The key code of the last release received.
    pub last_key: u64,
}

impl UpCounter {
    /// A counter that has received nothing yet.
    pub fn new() -> (r: UpCounter)
        ensures
            r == (UpCounter { count: 0, last_key: 0 }),
    {
        UpCounter { count: 0, last_key: 0 }
    }
}

impl Component for UpCounter {
    type Receives = KeyUp;

    open spec fn steps(pre: Self, ev: KeyUp, post: Self) -> bool {
        &&& post.count == (if pre.count < u64::MAX {
            (pre.count + 1) as u64
        } else {
            pre.count
        })
        &&& post.last_key == ev.key
    }

    fn on(&mut self, ev: KeyUp) {
        if self.count < u64::MAX {
            self.count = self.count + 1;
        }
        self.last_key = ev.key;
    }
}

/// Receives the whole key-event family and tallies presses and releases
/// separately.
#[derive(Clone, Copy, Debug, PartialEq, Eq, Structural)]
pub struct KeyTally {
    /// How many presses were received; saturates at the largest count.
    pub downs: u64,
    /// How many releases were received; saturates at the largest count.
    pub ups: u64,
}

impl KeyTally {
    /// A tally that has received nothing yet.
    pub fn new() -> (r: KeyTally)
        ensures
            r == (KeyTally { downs: 0, ups: 0 }),
    {
        KeyTally { downs: 0, ups: 0 }
    }
}

impl Component for KeyTally {
    type Receives = KeyEvent;

    open spec fn steps(pre: Self, ev: KeyEvent, post: Self) -> bool {
        match ev {
            KeyEvent::Down(_) => post == (KeyTally {
                downs: if pre.downs < u64::MAX {
                    (pre.downs + 1) as u64
                } else {
                    pre.downs
                },
                ups: pre.ups,
            }),
            KeyEvent::Up(_) => post == (KeyTally {
                downs: pre.downs,
                ups: if pre.ups < u64::MAX {
                    (pre.ups + 1) as u64
                } else {
                    pre.ups
                },
            }),
        }
    }

    fn on(&mut self, ev: KeyEvent) {
        match ev {
            KeyEvent::Down(_) => {
                if self.downs < u64::MAX {
                    self.downs = self.downs + 1;
                }
            },
            KeyEvent::Up(_) => {
                if self.ups < u64::MAX {
                    self.ups = self.ups + 1;
                }
            },
        }
    }
}

} // verus!
