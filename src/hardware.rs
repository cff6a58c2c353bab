//! The registry of all hardware blocks, made once per process.

use crate::ai::Ai;
use crate::dpc::Dpc;
use crate::dps::Dps;
use crate::mi::Mi;
use crate::pc::Pc;
use crate::pi::Pi;
use crate::rdram::Rdram;
use crate::registry::Slot;
use crate::ri::Ri;
use crate::si::Si;
use crate::sp::Sp;
use crate::vi::Vi;
use vstd::prelude::*;

verus! {

/// One checkout slot per hardware block.
///
/// Each slot starts out holding its block's token; `take` on a slot hands the
/// token over and `release` puts it back.
pub struct Hardware {
    pub ai: Slot<Ai>,
    pub dpc: Slot<Dpc>,
    pub dps: Slot<Dps>,
    pub mi: Slot<Mi>,
    pub pc: Slot<Pc>,
    pub pi: Slot<Pi>,
    pub rdram: Slot<Rdram>,
    pub ri: Slot<Ri>,
    pub si: Slot<Si>,
    pub sp: Slot<Sp>,
    pub vi: Slot<Vi>,
}

impl Hardware {
    /// Every block's token is in its slot.
    pub open spec fn all_available(self) -> bool {
        &&& self.ai@ is Some
        &&& self.dpc@ is Some
        &&& self.dps@ is Some
        &&& self.mi@ is Some
        &&& self.pc@ is Some
        &&& self.pi@ is Some
        &&& self.rdram@ is Some
        &&& self.ri@ is Some
        &&& self.si@ is Some
        &&& self.sp@ is Some
        &&& self.vi@ is Some
    }

    /// Makes the registry, with every block available, and records in
    /// `taken` that it has been made.
    ///
    /// `taken` is the process's one flag for this: while it is set, no second
    /// registry, and so no second token of any block, may be made.
    pub fn new(taken: &mut bool) -> (r: Hardware)
        requires
            !*old(taken),
        ensures
            *final(taken),
            r.all_available(),
    {
        *taken = true;
        Hardware {
            ai: Slot::new(Ai::new()),
            dpc: Slot::new(Dpc::new()),
            dps: Slot::new(Dps::new()),
            mi: Slot::new(Mi::new()),
            pc: Slot::new(Pc::new()),
            pi: Slot::new(Pi::new()),
            rdram: Slot::new(Rdram::new()),
            ri: Slot::new(Ri::new()),
            si: Slot::new(Si::new()),
            sp: Slot::new(Sp::new()),
            vi: Slot::new(Vi::new()),
        }
    }

    /// The registry, the first time it is asked for; `None` every time after.
    ///
    /// Testing and setting `taken` is one step: the exclusive borrow keeps any
    /// other caller out between the two.
    pub fn take(taken: &mut bool) -> (r: Option<Hardware>)
        ensures
            *final(taken),
            *old(taken) ==> r is None,
            !*old(taken) ==> r is Some && r->Some_0.all_available(),
    {
        if *taken {
            None
        } else {
            Some(Hardware::new(taken))
        }
    }
}

} // verus!
