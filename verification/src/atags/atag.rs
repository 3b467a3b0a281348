use vstd::prelude::*;
use crate::atags::raw::{Core, Mem};

verus! {

/// A boot parameter.
#[derive(Debug, Copy, Clone)]
pub enum Atag {
    Core(Core),
    Mem(Mem),
    Cmd(&'static str),
    Unknown(u32),
    /// The record that ends the list.
    End,
}

impl Atag {
    /// Returns `Some` if this is a `Core` record. Otherwise returns `None`.
    pub fn as_core(self) -> (core: Option<Core>)
        ensures
            core == (match self {
                Atag::Core(raw) => Some(raw),
                _ => None,
            }),
    {
        match self {
            Atag::Core(raw) => Some(raw),
            _ => None,
        }
    }

    /// Returns `Some` if this is a `Mem` record. Otherwise returns `None`.
    pub fn mem(self) -> (mem: Option<Mem>)
        ensures
            mem == (match self {
                Atag::Mem(raw) => Some(raw),
                _ => None,
            }),
    {
        match self {
            Atag::Mem(raw) => Some(raw),
            _ => None,
        }
    }

    /// Returns `Some` with the command line if this is a `Cmd` record.
    /// Otherwise returns `None`.
    pub fn cmd(self) -> (cmd: Option<&'static str>)
        ensures
            cmd == (match self {
                Atag::Cmd(s) => Some(s),
                _ => None,
            }),
    {
        match self {
            Atag::Cmd(s) => Some(s),
            _ => None,
        }
    }
}

impl From<Core> for Atag {
    fn from(core: Core) -> (atag: Atag) {
        Atag::Core(core)
    }
}

impl vstd::std_specs::convert::FromSpecImpl<Core> for Atag {
    open spec fn obeys_from_spec() -> bool {
        true
    }

    open spec fn from_spec(core: Core) -> Atag {
        Atag::Core(core)
    }
}

impl From<Mem> for Atag {
    fn from(mem: Mem) -> (atag: Atag) {
        Atag::Mem(mem)
    }
}

impl vstd::std_specs::convert::FromSpecImpl<Mem> for Atag {
    open spec fn obeys_from_spec() -> bool {
        true
    }

    open spec fn from_spec(mem: Mem) -> Atag {
        Atag::Mem(mem)
    }
}

} // verus!
