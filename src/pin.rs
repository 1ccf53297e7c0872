use vstd::prelude::*;

verus! {

/// How a line is configured: sensing, or driving with a chosen first level.
#[derive(Clone, Copy, Debug, PartialEq, Eq, Structural)]
pub enum PinDirection {
    Input,
    OutputInitiallyLow,
    OutputInitiallyHigh,
}

/// The level a direction drives the line to as soon as it is applied
/// (`None` for an input line, which drives nothing).
pub open spec fn initial_level_of(d: PinDirection) -> Option<u8> {
    match d {
        PinDirection::Input => None,
        PinDirection::OutputInitiallyLow => Some(0u8),
        PinDirection::OutputInitiallyHigh => Some(1u8),
    }
}

impl PinDirection {
    pub fn initial_level(&self) -> (r: Option<u8>)
        ensures
            r == initial_level_of(*self),
    {
        match self {
            PinDirection::Input => None,
            PinDirection::OutputInitiallyLow => Some(0u8),
            PinDirection::OutputInitiallyHigh => Some(1u8),
        }
    }

    pub fn is_output(&self) -> (r: bool)
        ensures
            r == (*self != PinDirection::Input),
    {
        match self {
            PinDirection::Input => false,
            _ => true,
        }
    }
}

/// The operation on the pin-control interface that failed.
#[derive(Clone, Copy, Debug, PartialEq, Eq, Structural)]
pub enum PinOp {
    Export,
    Unexport,
    SetDirection,
    Read,
    Write,
}

/// A failure of the kernel pin-control interface, with the platform's message.
#[derive(Clone, Debug)]
pub struct IoError {
    pub op: PinOp,
    pub pin: u64,
    pub message: String,
}

/// One physical line, named by its index. Making a handle touches nothing.
#[derive(Clone, Copy, Debug, PartialEq, Eq, Structural)]
pub struct PinHandle {
    pub index: u64,
}

impl PinHandle {
    pub fn new(index: u64) -> (p: PinHandle)
        ensures
            p.index == index,
    {
        PinHandle { index }
    }

    pub fn index(&self) -> (r: u64)
        ensures
            r == self.index,
    {
        self.index
    }
}

} // verus!
