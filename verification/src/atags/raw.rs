use vstd::prelude::*;

verus! {

/// The tag that ends the list of boot parameters.
pub const NONE: u32 = 0x0000_0000;

/// The tag of the record that begins the list.
pub const CORE: u32 = 0x5441_0001;

/// The tag of a memory record.
pub const MEM: u32 = 0x5441_0002;

/// The tag of the command line.
pub const CMDLINE: u32 = 0x5441_0009;

/// The record that begins the list of boot parameters.
#[derive(Debug, Copy, Clone, PartialEq, Eq)]
pub struct Core {
    pub flags: u32,
    pub page_size: u32,
    pub root_dev: u32,
}

/// A region of memory.
#[derive(Debug, Copy, Clone, PartialEq, Eq)]
pub struct Mem {
    pub size: u32,
    pub start: u32,
}

/// What a record holds, as its tag tells.
#[derive(Debug, Copy, Clone, PartialEq, Eq)]
pub enum Kind {
    /// The record that begins the list.
    Core,
    /// A memory record.
    Mem,
    /// The command line.
    Cmd,
    /// The record that ends the list.
    End,
    /// A record of another kind, with its tag.
    Unknown(u32),
}

/// Tells from its tag what a record holds.
pub fn kind_of(tag: u32) -> (kind: Kind)
    ensures
        kind == (if tag == CORE {
            Kind::Core
        } else if tag == MEM {
            Kind::Mem
        } else if tag == CMDLINE {
            Kind::Cmd
        } else if tag == NONE {
            Kind::End
        } else {
            Kind::Unknown(tag)
        }),
{
    if tag == CORE {
        Kind::Core
    } else if tag == MEM {
        Kind::Mem
    } else if tag == CMDLINE {
        Kind::Cmd
    } else if tag == NONE {
        Kind::End
    } else {
        Kind::Unknown(tag)
    }
}

} // verus!
