use vstd::prelude::*;

verus! {

/// Identifier of a physical hardware channel driving one motor.
///
/// A correct configuration gives each actuator or shifter its own port for
/// its whole lifetime; the feedback table is keyed by the channel number
/// that [`Port::id`] returns.
#[derive(Clone, Copy, Debug, PartialEq, Eq, Structural)]
pub enum Port {
    A,
    B,
    C,
    D,
}

impl Port {
    /// The wire-level channel number of this port, used as the key of the
    /// motor-position table.
    pub open spec fn id_spec(self) -> u8 {
        match self {
            Port::A => 0,
            Port::B => 1,
            Port::C => 2,
            Port::D => 3,
        }
    }

    /// Executable form of [`Port::id_spec`].
    pub fn id(self) -> (r: u8)
        ensures
            r == self.id_spec(),
    {
        match self {
            Port::A => 0,
            Port::B => 1,
            Port::C => 2,
            Port::D => 3,
        }
    }
}

} // verus!
