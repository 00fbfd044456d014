//! Devices of a context, and the walk over them by index.

use vstd::prelude::*;

use crate::context::Context;

verus! {

/// A device of a native context. It holds a share of its context, so the context
/// stays alive, and the device usable, for as long as the device does.
pub struct Device<H> {
    dev: u64,
    ctx: Context<H>,
}

impl<H> Device<H> {
    /// The address of the native device.
    pub closed spec fn handle(&self) -> u64 {
        self.dev
    }

    /// The context that the device belongs to.
    pub closed spec fn context_spec(&self) -> Context<H> {
        self.ctx
    }

    pub(crate) fn new(dev: u64, ctx: Context<H>) -> (r: Self)
        ensures
            r.handle() == dev,
            r.context_spec() == ctx,
    {
        Device { dev, ctx }
    }

    /// The address of the native device.
    pub fn address(&self) -> (r: u64)
        ensures
            r == self.handle(),
    {
        self.dev
    }

    /// The context that the device belongs to.
    pub fn context(&self) -> (r: &Context<H>)
        ensures
            *r == self.context_spec(),
    {
        &self.ctx
    }
}

/// Whether a native device lookup at index `idx` that returned `dev` found a device:
/// the index fits the native 32-bit index type and the address is not null.
pub open spec fn found_at(idx: int, dev: u64) -> bool {
    0 <= idx <= u32::MAX && dev != 0
}

/// One step of the walk over the devices, from the cursor `(next, done)`: a found
/// device moves the cursor on, the first miss ends the walk for good.
pub open spec fn step(c: (nat, bool), found: bool) -> (nat, bool) {
    if c.1 {
        c
    } else if found {
        (c.0 + 1, false)
    } else {
        (c.0, true)
    }
}

/// `k` steps of the walk over a native context that lists devices at the indices
/// below `n`, that is whose lookup at index `i` returns a non-null address exactly
/// when `i < n`: the cursor after them, and the indices of the devices produced.
pub open spec fn walk(n: nat, k: nat) -> ((nat, bool), Seq<nat>)
    decreases k,
{
    if k == 0 {
        ((0, false), Seq::empty())
    } else {
        let (c, out) = walk(n, (k - 1) as nat);
        let found = !c.1 && found_at(c.0 as int, if c.0 < n { 1 } else { 0 });
        (step(c, found), if found { out.push(c.0) } else { out })
    }
}

/// A walk over the devices of a context, by index from zero, up to the first index
/// at which no device stands; after that it produces nothing, whatever is asked.
pub struct DeviceIterator<'a, H> {
    ctx: &'a Context<H>,
    idx: u64,
    done: bool,
}

impl<'a, H> DeviceIterator<'a, H> {
    /// The cursor: the next index to look up, and whether the walk has ended.
    pub closed spec fn cursor(&self) -> (nat, bool) {
        (self.idx as nat, self.done)
    }

    /// The context walked over.
    pub closed spec fn context_spec(&self) -> Context<H> {
        *self.ctx
    }

    pub(crate) fn new(ctx: &'a Context<H>) -> (r: Self)
        ensures
            r.cursor() == (0nat, false),
            r.context_spec() == *ctx,
    {
        DeviceIterator { ctx, idx: 0, done: false }
    }

    /// The next device. While the walk goes on, `lookup` is the native lookup of the
    /// device at the cursor's index; the first index with no device ends the walk.
    pub fn next<F>(&mut self, lookup: F) -> (r: Option<Device<H>>)
        where
            F: FnOnce(&H, u32) -> u64,
        requires
            forall|o: &H, i: u32| lookup.requires((o, i)),
        ensures
            final(self).context_spec() == old(self).context_spec(),
            old(self).cursor().1 || old(self).cursor().0 > u32::MAX ==> r is None
                && final(self).cursor() == step(old(self).cursor(), false),
            !old(self).cursor().1 && old(self).cursor().0 <= u32::MAX ==> exists|d: u64|
                #[trigger] lookup.ensures(
                    (&old(self).context_spec().owner_spec(), old(self).cursor().0 as u32),
                    d,
                ) && final(self).cursor() == step(old(self).cursor(), found_at(old(self).cursor().0 as int, d))
                    && (r is Some <==> d != 0) && (r matches Some(dv) ==> dv.handle() == d
                    && dv.context_spec().handle() == old(self).context_spec().handle()
                    && dv.context_spec().owner_spec() == old(self).context_spec().owner_spec()),
    {
        if self.done || self.idx > 0xffff_ffffu64 {
            self.done = true;
            return None;
        }
        let i = self.idx as u32;
        let d = lookup(self.ctx.owner(), i);
        if d == 0 {
            self.done = true;
            None
        } else {
            self.idx = self.idx + 1;
            Some(Device::new(d, self.ctx.clone()))
        }
    }
}

/// The walk over the devices produces the devices at indices `0 .. n`, in that order,
/// where the native context lists devices at the indices below `n`; once past them it
/// has ended, and further steps produce nothing more.
pub proof fn lemma_devices_in_index_order(n: nat, k: nat)
    requires
        n <= u32::MAX + 1,
    ensures
        walk(n, k).1 == Seq::new(if k < n { k } else { n }, |i: int| i as nat),
        walk(n, k).0.0 == if k < n { k } else { n },
        walk(n, k).0.1 == (k > n),
    decreases k,
{
    if k > 0 {
        lemma_devices_in_index_order(n, (k - 1) as nat);
        let m = if k < n { k } else { n };
        assert(walk(n, k).1 =~= Seq::new(m, |i: int| i as nat));
    }
}

/// Whether a step from cursor `c`, whose native lookup returned `d`, produces a
/// device: the walk goes on and the lookup found one. Where no lookup is made (the
/// walk has ended, or the index is beyond the native index type) no `d` makes it true.
pub open spec fn yields(c: (nat, bool), d: u64) -> bool {
    !c.1 && found_at(c.0 as int, d)
}

/// Whether the cursors `cs` and lookup results `ds` are those of calls of
/// [`DeviceIterator::next`] from a fresh walk over a native context whose lookup at
/// index `i` returns a non-null address exactly when `i < n`: each call moves the
/// cursor as `next` states, by `step` with `found_at` of its lookup.
pub open spec fn next_calls(n: nat, cs: Seq<(nat, bool)>, ds: Seq<u64>) -> bool {
    &&& cs.len() == ds.len() + 1
    &&& cs[0] == (0nat, false)
    &&& forall|j: int|
        0 <= j < ds.len() ==> #[trigger] cs[j + 1] == step(cs[j], found_at(cs[j].0 as int, ds[j]))
    &&& forall|j: int|
        0 <= j < ds.len() && cs[j].0 <= u32::MAX ==> (#[trigger] ds[j] != 0 <==> cs[j].0 < n)
}

proof fn lemma_next_calls_walk(n: nat, cs: Seq<(nat, bool)>, ds: Seq<u64>, k: nat)
    requires
        n <= u32::MAX + 1,
        next_calls(n, cs, ds),
        k <= ds.len(),
    ensures
        cs[k as int] == walk(n, k).0,
    decreases k,
{
    if k > 0 {
        let j = (k - 1) as int;
        lemma_next_calls_walk(n, cs, ds, (k - 1) as nat);
        lemma_devices_in_index_order(n, (k - 1) as nat);
        assert(cs[j + 1] == step(cs[j], found_at(cs[j].0 as int, ds[j])));
    }
}

/// Calls of [`DeviceIterator::next`] from a fresh walk, over a native context whose
/// lookup at index `i` returns a non-null address exactly when `i < n`, produce a
/// device at the `j`-th call exactly when `j < n`, and that device is the one at
/// index `j`: the devices come once each, in index order, and after the first miss
/// no call produces one again.
pub proof fn lemma_next_calls_in_index_order(n: nat, cs: Seq<(nat, bool)>, ds: Seq<u64>)
    requires
        n <= u32::MAX + 1,
        next_calls(n, cs, ds),
    ensures
        forall|j: int| 0 <= j < ds.len() ==> (yields(cs[j], #[trigger] ds[j]) <==> j < n),
        forall|j: int| 0 <= j < ds.len() && j < n ==> #[trigger] cs[j].0 == j,
        forall|j: int| 0 <= j < cs.len() ==> #[trigger] cs[j] == walk(n, j as nat).0,
{
    assert forall|j: int| 0 <= j < cs.len() implies #[trigger] cs[j] == walk(n, j as nat).0 by {
        lemma_next_calls_walk(n, cs, ds, j as nat);
    }
    assert forall|j: int| 0 <= j < ds.len() implies (yields(cs[j], #[trigger] ds[j]) <==> j < n) by {
        lemma_next_calls_walk(n, cs, ds, j as nat);
        lemma_devices_in_index_order(n, j as nat);
    }
    assert forall|j: int| 0 <= j < ds.len() && j < n implies #[trigger] cs[j].0 == j by {
        lemma_next_calls_walk(n, cs, ds, j as nat);
        lemma_devices_in_index_order(n, j as nat);
    }
}

/// A device lookup by index succeeds exactly at the indices below the number of
/// devices, where the native context lists devices at the indices below `n`.
pub proof fn lemma_lookup_in_range(n: nat, idx: int, dev: u64)
    requires
        n <= u32::MAX + 1,
        0 <= idx,
        idx <= u32::MAX ==> (dev != 0 <==> idx < n),
    ensures
        found_at(idx, dev) <==> idx < n,
{
}

} // verus!
