//! Industrial I/O contexts.
//!
//! A [`Context`] is a shared handle on one native context. Cloning it shares the
//! same native context; the native context is released once, when the last clone
//! (or the last device derived from it) is dropped. What releases it is the owner
//! value `H` that the caller hands over on creation: its own drop performs the
//! native destroy call, and it is dropped exactly once, with the last share.
//!
//! The native library is not thread safe. A context holds an `Rc`, so neither it
//! nor anything derived from it can be sent to or shared with another thread.

use vstd::prelude::*;
use vstd::std_specs::cmp::PartialEqSpec;
use vstd::string::StringSliceAdditionalSpecFns;

use crate::device::{found_at, Device, DeviceIterator};
use crate::error::{check_status, last_errno, Error};
use crate::native::{c_bytes, is_native_str, native_string};
use crate::timeout::{duration_millis, duration_millis_of};

verus! {

/// The single owner of a native context: its address, which identifies it, and the
/// value whose drop destroys it.
struct InnerContext<H> {
    ctx: u64,
    owner: H,
}

/// A shared handle on a native industrial I/O context.
pub struct Context<H> {
    inner: std::rc::Rc<InnerContext<H>>,
}

/// How the outcome of a native creation call becomes a result: a context that owns
/// the returned handle, or, where the call returned none, a system error.
pub open spec fn opened_as<H>(out: Option<(u64, H)>, r: Result<Context<H>, Error>) -> bool {
    match out {
        Some((c, o)) => r matches Ok(ctx) && ctx.handle() == c && ctx.owner_spec() == o,
        None => r matches Err(Error::System(_)),
    }
}

/// How a creation from a string ends: an argument error, with no native call, where
/// the string holds a NUL byte; otherwise the outcome of the native call, which
/// received the string's bytes with a terminating NUL.
pub open spec fn opened_from_str<H, F: FnOnce(&Vec<u8>) -> Option<(u64, H)>>(
    s: &str,
    create: F,
    r: Result<Context<H>, Error>,
) -> bool {
    if is_native_str(s) {
        exists|b: Vec<u8>, out: Option<(u64, H)>|
            b@ == c_bytes(s) && #[trigger] create.ensures((&b,), out) && opened_as(out, r)
    } else {
        r matches Err(Error::Argument)
    }
}

impl<H> Context<H> {
    /// The address of the native context: what identifies it.
    pub closed spec fn handle(&self) -> u64 {
        self.inner.ctx
    }

    /// The value that releases the native context when the last share is gone.
    pub closed spec fn owner_spec(&self) -> H {
        self.inner.owner
    }

    /// Takes ownership of a native context that a creation call returned.
    fn adopt(ctx: u64, owner: H) -> (r: Self)
        ensures
            r.handle() == ctx,
            r.owner_spec() == owner,
    {
        Context { inner: std::rc::Rc::new(InnerContext { ctx, owner }) }
    }

    /// Turns the outcome of a native creation call into a context, or into a system
    /// error carrying the native error code where the call returned no handle.
    fn from_native(out: Option<(u64, H)>) -> (r: Result<Self, Error>)
        ensures
            opened_as(out, r),
    {
        match out {
            Some((c, o)) => Ok(Context::adopt(c, o)),
            None => Err(Error::System(last_errno())),
        }
    }

    /// Runs a native creation call on a string: refuses a string with a NUL byte
    /// before any call, and otherwise hands the call the NUL-terminated bytes.
    fn create_with_str<F>(s: &str, create: F) -> (r: Result<Self, Error>)
        where
            F: FnOnce(&Vec<u8>) -> Option<(u64, H)>,
        requires
            forall|b: &Vec<u8>| create.requires((b,)),
        ensures
            opened_from_str(s, create, r),
    {
        match native_string(s) {
            Err(e) => Err(e),
            Ok(b) => {
                let out = create(&b);
                let ghost g = out;
                let r = Context::from_native(out);
                assert(create.ensures((&b,), g) && opened_as(g, r));
                r
            },
        }
    }

    /// Creates the default context, local or remote as the native library's
    /// environment selects, through the native creation call `create`.
    pub fn new<F>(create: F) -> (r: Result<Self, Error>)
        where
            F: FnOnce() -> Option<(u64, H)>,
        requires
            create.requires(()),
        ensures
            exists|out: Option<(u64, H)>| #[trigger] create.ensures((), out) && opened_as(out, r),
    {
        let out = create();
        let ghost g = out;
        let r = Context::from_native(out);
        assert(create.ensures((), g) && opened_as(g, r));
        r
    }

    /// Creates a context from a URI (`local:`, `xml:<path>`, `ip:<host>`,
    /// `usb:<id>` or `serial:<path>`) through the native call `create`.
    pub fn from_uri<F>(uri: &str, create: F) -> (r: Result<Self, Error>)
        where
            F: FnOnce(&Vec<u8>) -> Option<(u64, H)>,
        requires
            forall|b: &Vec<u8>| create.requires((b,)),
        ensures
            opened_from_str(uri, create, r),
    {
        Context::create_with_str(uri, create)
    }

    /// Creates a context from a URI; the same as [`Context::from_uri`].
    pub fn create_from_uri<F>(uri: &str, create: F) -> (r: Result<Self, Error>)
        where
            F: FnOnce(&Vec<u8>) -> Option<(u64, H)>,
        requires
            forall|b: &Vec<u8>| create.requires((b,)),
        ensures
            opened_from_str(uri, create, r),
    {
        Context::create_with_str(uri, create)
    }

    /// Creates a context on the local devices through the native call `create`.
    pub fn create_local<F>(create: F) -> (r: Result<Self, Error>)
        where
            F: FnOnce() -> Option<(u64, H)>,
        requires
            create.requires(()),
        ensures
            exists|out: Option<(u64, H)>| #[trigger] create.ensures((), out) && opened_as(out, r),
    {
        let out = create();
        let ghost g = out;
        let r = Context::from_native(out);
        assert(create.ensures((), g) && opened_as(g, r));
        r
    }

    /// Creates a context on a network host through the native call `create`.
    pub fn create_network<F>(host: &str, create: F) -> (r: Result<Self, Error>)
        where
            F: FnOnce(&Vec<u8>) -> Option<(u64, H)>,
        requires
            forall|b: &Vec<u8>| create.requires((b,)),
        ensures
            opened_from_str(host, create, r),
    {
        Context::create_with_str(host, create)
    }

    /// Creates a context from an XML file through the native call `create`.
    pub fn create_xml<F>(xml_file: &str, create: F) -> (r: Result<Self, Error>)
        where
            F: FnOnce(&Vec<u8>) -> Option<(u64, H)>,
        requires
            forall|b: &Vec<u8>| create.requires((b,)),
        ensures
            opened_from_str(xml_file, create, r),
    {
        Context::create_with_str(xml_file, create)
    }

    /// Creates a context from XML data in memory through the native call `create`,
    /// which receives the NUL-terminated bytes and the length of the data itself,
    /// terminator not counted.
    pub fn create_xml_mem<F>(xml: &str, create: F) -> (r: Result<Self, Error>)
        where
            F: FnOnce(&Vec<u8>, usize) -> Option<(u64, H)>,
        requires
            forall|b: &Vec<u8>, n: usize| create.requires((b, n)),
        ensures
            !is_native_str(xml) ==> r matches Err(Error::Argument),
            is_native_str(xml) ==> exists|b: Vec<u8>, out: Option<(u64, H)>|
                b@ == c_bytes(xml) && #[trigger] create.ensures((&b, xml.spec_bytes().len() as usize), out)
                    && opened_as(out, r),
    {
        let n = xml.len();
        match native_string(xml) {
            Err(e) => Err(e),
            Ok(b) => {
                let out = create(&b, n);
                let ghost g = out;
                let r = Context::from_native(out);
                assert(create.ensures((&b, n), g) && opened_as(g, r));
                r
            },
        }
    }

    /// The address of the native context, which identifies it.
    pub fn address(&self) -> (r: u64)
        ensures
            r == self.handle(),
    {
        self.inner.ctx
    }

    /// The value that releases the native context.
    pub fn owner(&self) -> (r: &H)
        ensures
            *r == self.owner_spec(),
    {
        &self.inner.owner
    }

    /// The description of the context, from the native call `read`; an empty string
    /// where the native layer gives none.
    pub fn description<F>(&self, read: F) -> (r: String)
        where
            F: FnOnce(&H) -> Option<String>,
        requires
            forall|o: &H| read.requires((o,)),
        ensures
            exists|out: Option<String>| #[trigger] read.ensures((&self.owner_spec(),), out)
                && r@ == match out {
                    Some(s) => s@,
                    None => Seq::<char>::empty(),
                },
    {
        let out = read(self.owner());
        let ghost g = out;
        let r = match out {
            Some(s) => s,
            None => String::new(),
        };
        assert(read.ensures((&self.owner_spec(),), g));
        r
    }

    /// The number of context attributes, from the native count `count`.
    pub fn num_attrs<F>(&self, count: F) -> (r: usize)
        where
            F: FnOnce(&H) -> u32,
        requires
            forall|o: &H| count.requires((o,)),
        ensures
            exists|n: u32| #[trigger] count.ensures((&self.owner_spec(),), n) && r == n,
    {
        let n = count(self.owner());
        assert(count.ensures((&self.owner_spec(),), n));
        n as usize
    }

    /// The number of devices, from the native count `count`.
    pub fn num_devices<F>(&self, count: F) -> (r: usize)
        where
            F: FnOnce(&H) -> u32,
        requires
            forall|o: &H| count.requires((o,)),
        ensures
            exists|n: u32| #[trigger] count.ensures((&self.owner_spec(),), n) && r == n,
    {
        let n = count(self.owner());
        assert(count.ensures((&self.owner_spec(),), n));
        n as usize
    }

    /// Sets the timeout of I/O operations through the native call `apply`, which
    /// receives the timeout in whole milliseconds (zero: no timeout) and returns a
    /// status; a negative status is a system error. A timeout whose milliseconds do
    /// not fit the native 32-bit count is a range error, with no native call.
    pub fn set_timeout<F>(&mut self, timeout: core::time::Duration, apply: F) -> (r: Result<(), Error>)
        where
            F: FnOnce(&H, u32) -> i32,
        requires
            forall|o: &H, ms: u32| apply.requires((o, ms)),
        ensures
            *final(self) == *old(self),
            duration_millis_of(timeout) > u32::MAX ==> r matches Err(Error::Range),
            duration_millis_of(timeout) <= u32::MAX ==> exists|ret: i32|
                #[trigger] apply.ensures((&old(self).owner_spec(), duration_millis_of(timeout) as u32), ret)
                    && (ret >= 0 <==> r is Ok) && (ret < 0 ==> r matches Err(Error::System(_))),
    {
        match duration_millis(timeout) {
            None => Err(Error::Range),
            Some(ms) => {
                let ret = apply(self.owner(), ms);
                assert(apply.ensures((&self.owner_spec(), ms), ret));
                check_status(ret)
            },
        }
    }

    /// The device at index `idx`, found by the native lookup `lookup`; a range error
    /// where no device stands there. The device holds a share of this context.
    pub fn get_device<F>(&self, idx: usize, lookup: F) -> (r: Result<Device<H>, Error>)
        where
            F: FnOnce(&H, u32) -> u64,
        requires
            forall|o: &H, i: u32| lookup.requires((o, i)),
        ensures
            idx > u32::MAX ==> r matches Err(Error::Range),
            idx <= u32::MAX ==> exists|d: u64|
                #[trigger] lookup.ensures((&self.owner_spec(), idx as u32), d)
                    && (r is Ok <==> found_at(idx as int, d))
                    && (r is Err ==> r matches Err(Error::Range))
                    && (r matches Ok(dv) ==> dv.handle() == d && dv.context_spec().handle() == self.handle()
                    && dv.context_spec().owner_spec() == self.owner_spec()),
    {
        if idx > 0xffff_ffffusize {
            return Err(Error::Range);
        }
        let d = lookup(self.owner(), idx as u32);
        assert(lookup.ensures((&self.owner_spec(), idx as u32), d));
        if d == 0 {
            Err(Error::Range)
        } else {
            Ok(Device::new(d, self.clone()))
        }
    }

    /// The device with the name or ID `name`, found by the native lookup `lookup`,
    /// which receives the name's NUL-terminated bytes; none where no device matches.
    /// The name must hold no NUL byte: it could not reach the native layer whole.
    pub fn find_device<F>(&self, name: &str, lookup: F) -> (r: Option<Device<H>>)
        where
            F: FnOnce(&H, &Vec<u8>) -> u64,
        requires
            is_native_str(name),
            forall|o: &H, b: &Vec<u8>| lookup.requires((o, b)),
        ensures
            exists|b: Vec<u8>, d: u64|
                b@ == c_bytes(name) && #[trigger] lookup.ensures((&self.owner_spec(), &b), d)
                    && (r is Some <==> d != 0)
                    && (r matches Some(dv) ==> dv.handle() == d && dv.context_spec().handle() == self.handle()
                    && dv.context_spec().owner_spec() == self.owner_spec()),
    {
        match native_string(name) {
            Err(_) => None,
            Ok(b) => {
                let d = lookup(self.owner(), &b);
                assert(lookup.ensures((&self.owner_spec(), &b), d));
                if d == 0 {
                    None
                } else {
                    Some(Device::new(d, self.clone()))
                }
            },
        }
    }

    /// A walk over the devices of the context, from index zero.
    pub fn devices(&self) -> (r: DeviceIterator<'_, H>)
        ensures
            r.cursor() == (0nat, false),
            r.context_spec() == *self,
    {
        DeviceIterator::new(self)
    }

    /// Gives up this share of the context. The native context is destroyed only if
    /// no other share of it remains.
    pub fn destroy(self) {
    }
}

impl<H> Clone for Context<H> {
    /// Another share of the same native context.
    fn clone(&self) -> (r: Self)
        ensures
            r.handle() == self.handle(),
            r.owner_spec() == self.owner_spec(),
    {
        Context { inner: std::rc::Rc::clone(&self.inner) }
    }
}

impl<H> PartialEq for Context<H> {
    /// Two contexts are equal when they share the same native context.
    fn eq(&self, other: &Context<H>) -> (r: bool) {
        self.inner.ctx == other.inner.ctx
    }
}

impl<H> vstd::std_specs::cmp::PartialEqSpecImpl for Context<H> {
    open spec fn obeys_eq_spec() -> bool {
        true
    }

    open spec fn eq_spec(&self, other: &Context<H>) -> bool {
        self.handle() == other.handle()
    }
}

/// Equality of contexts is identity: two contexts are equal exactly when they stand
/// for the same native context, however each was created.
pub proof fn lemma_eq_is_identity<H>(a: Context<H>, b: Context<H>)
    ensures
        a.eq_spec(&b) <==> a.handle() == b.handle(),
{
}

} // verus!
