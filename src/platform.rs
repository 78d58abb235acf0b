use vstd::prelude::*;

verus! {

/// The actuator: an on/off output driven once per control-loop iteration.
pub trait PumpOutput {
    /// Whether the output is currently on.
    spec fn is_running(&self) -> bool;

    /// Switches the output on or off.
    fn set_running(&mut self, running: bool)
        ensures
            final(self).is_running() == running,
    ;
}

/// A stand-in actuator that only remembers its level.
#[derive(Clone, Copy, Debug, PartialEq, Eq, Structural)]
pub struct FakePump {
    pub running: bool,
}

impl FakePump {
    /// Whether the stand-in is on.
    pub fn running(&self) -> (r: bool)
        ensures
            r == self.is_running(),
    {
        self.running
    }
}

impl PumpOutput for FakePump {
    open spec fn is_running(&self) -> bool {
        self.running
    }

    fn set_running(&mut self, running: bool) {
        self.running = running;
    }
}

/// A stand-in actuator, initially off.
pub fn pump() -> (r: FakePump)
    ensures
        !r.is_running(),
{
    FakePump { running: false }
}

} // verus!
