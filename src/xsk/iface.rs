use vstd::prelude::*;

use crate::xsk::IfInfo;
use crate::{Errno, EINVAL};

verus! {

/// The size of an interface name buffer, terminating nul included.
pub const IFNAMSIZ: usize = 16;

/// The numeric identity of a device queue: interface, queue, and the network namespace of the
/// socket.
#[derive(Debug, Clone, Copy, PartialEq, Eq, Structural)]
pub struct IfCtx {
    pub ifindex: u32,
    pub queue_id: u32,
    /// The namespace cookie, associated with a *socket*.
    pub netnscookie: u64,
}

impl IfCtx {
    /// The context as a key of the device tracker.
    pub open spec fn spec_key(&self) -> (u32, u32, u64) {
        (self.ifindex, self.queue_id, self.netnscookie)
    }

    /// The context as a key of the device tracker.
    pub fn key(&self) -> (r: (u32, u32, u64))
        ensures
            r == self.spec_key(),
        opens_invariants none
        no_unwind
    {
        (self.ifindex, self.queue_id, self.netnscookie)
    }
}

impl IfInfo {
    /// Create an info referring to no device.
    ///
    /// This allows allocating an info to overwrite with more specific information.
    pub fn invalid() -> (r: IfInfo)
        ensures
            r.spec_ctx() == (IfCtx { ifindex: 0, queue_id: 0, netnscookie: 0 }),
            r.spec_name() == Seq::new(IFNAMSIZ as nat, |i: int| 0u8),
    {
        let r = IfInfo {
            ctx: IfCtx { ifindex: 0, queue_id: 0, netnscookie: 0 },
            ifname: [0u8; 16],
        };
        assert(r.ifname@ =~= Seq::new(IFNAMSIZ as nat, |i: int| 0u8));
        r
    }

    /// Set the information from an interface, by name.
    ///
    /// `name` holds the name with its terminating nul, `index` what looking the name up gave.
    /// A name that does not fit the name buffer is refused before anything else.
    pub fn from_name(&mut self, name: &[u8], index: Result<u32, Errno>) -> (r: Result<(), Errno>)
        ensures
            name@.len() > IFNAMSIZ ==> r == Err::<(), Errno>(Errno(EINVAL)) && *final(self)
                == *old(self),
            name@.len() <= IFNAMSIZ && index is Err ==> r == Err::<(), Errno>(index->Err_0)
                && *final(self) == *old(self),
            name@.len() <= IFNAMSIZ && index is Ok ==> {
                &&& r is Ok
                &&& final(self).spec_ctx() == (IfCtx {
                    ifindex: index->Ok_0,
                    queue_id: 0,
                    netnscookie: 0,
                })
                &&& final(self).spec_name() == name@ + old(self).spec_name().skip(
                    name@.len() as int,
                )
            },
    {
        if name.len() > IFNAMSIZ {
            return Err(Errno(EINVAL));
        }
        let index = match index {
            Ok(index) => index,
            Err(err) => return Err(err),
        };
        self.ctx.ifindex = index;
        self.ctx.queue_id = 0;
        self.ctx.netnscookie = 0;
        let mut i: usize = 0;
        while i < name.len()
            invariant
                name@.len() <= IFNAMSIZ,
                i <= name@.len(),
                self.ctx == (IfCtx { ifindex: index, queue_id: 0, netnscookie: 0 }),
                self.ifname@ == name@.take(i as int) + old(self).ifname@.skip(i as int),
            decreases name@.len() - i,
        {
            self.ifname[i] = name[i];
            i = i + 1;
            assert(self.ifname@ =~= name@.take(i as int) + old(self).ifname@.skip(i as int));
        }
        assert(name@.take(name@.len() as int) =~= name@);
        Ok(())
    }

    /// Set the information from an interface, by its numeric identifier.
    ///
    /// `name` is what looking the index up gave: the name buffer, or the error.
    pub fn from_ifindex(&mut self, index: u32, name: Result<[u8; 16], Errno>) -> (r: Result<
        (),
        Errno,
    >)
        ensures
            name is Err ==> r == Err::<(), Errno>(name->Err_0) && *final(self) == *old(self),
            name is Ok ==> {
                &&& r is Ok
                &&& final(self).spec_ctx() == (IfCtx {
                    ifindex: index,
                    queue_id: 0,
                    netnscookie: 0,
                })
                &&& final(self).spec_name() == name->Ok_0@
            },
    {
        match name {
            Ok(name) => {
                self.ctx = IfCtx { ifindex: index, queue_id: 0, netnscookie: 0 };
                self.ifname = name;
                Ok(())
            },
            Err(err) => Err(err),
        }
    }

    /// Configure the queue id.
    ///
    /// This does _not_ guarantee that this queue is valid, or actually exists. You'll find out
    /// during the bind call.
    pub fn set_queue(&mut self, queue_id: u32)
        ensures
            final(self).spec_ctx() == (IfCtx { queue_id, ..old(self).spec_ctx() }),
            final(self).spec_name() == old(self).spec_name(),
    {
        self.ctx.queue_id = queue_id;
    }

    /// Get the `ifindex`, numeric ID of the interface in the kernel.
    pub fn ifindex(&self) -> (r: u32)
        ensures
            r == self.spec_ctx().ifindex,
    {
        self.ctx.ifindex
    }

    /// Get the queue ID previously set with `set_queue`.
    pub fn queue_id(&self) -> (r: u32)
        ensures
            r == self.spec_ctx().queue_id,
    {
        self.ctx.queue_id
    }

    /// The identity of the device queue this info names.
    pub fn ctx(&self) -> (r: IfCtx)
        ensures
            r == self.spec_ctx(),
    {
        self.ctx
    }

    /// The interface name buffer, nul-terminated.
    pub fn name(&self) -> (r: [u8; 16])
        ensures
            r@ == self.spec_name(),
    {
        self.ifname
    }
}

} // verus!
