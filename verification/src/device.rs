//! The contract that every platform's device fulfils.

use crate::configuration::{Configuration, IpAddress, Setting};
use crate::error::Error;
use vstd::prelude::*;

verus! {

/// A device that went from `pre` through the settings of `plan`, one setter call for each in
/// their order, and came out as `post` with the result `r`; `applied` says what a setter call
/// may do. The first setter that fails ends the run: its error is the result, what was set
/// before it stays set, and the settings after it are not tried. A run through all of them, or
/// through none, is a success.
pub open spec fn configured<T>(
    applied: spec_fn(T, Setting, T, Result<(), Error>) -> bool,
    pre: T,
    plan: Seq<Setting>,
    post: T,
    r: Result<(), Error>,
) -> bool
    decreases plan.len(),
{
    if plan.len() == 0 {
        post == pre && r == Ok::<(), Error>(())
    } else {
        exists|mid: T, first: Result<(), Error>| #[trigger]
            applied(pre, plan[0], mid, first) && if first is Err {
                post == mid && r == first
            } else {
                configured(applied, mid, plan.skip(1), post, r)
            }
    }
}

/// A TUN abstract device interface.
pub trait AbstractDevice: Sized {
    /// What one call of a setter may do: turn the device `pre` into the device `post` and
    /// give `outcome`. It is for each kind of device to say; where it says nothing, anything
    /// may happen.
    open spec fn applied(pre: Self, setting: Setting, post: Self, outcome: Result<(), Error>) -> bool {
        true
    }

    /// Reconfigure the device: every property that `config` names is set, in the order of
    /// `Configuration::plan`, until one cannot be set.
    fn configure(&mut self, config: &Configuration) -> (r: Result<(), Error>)
        ensures
            configured(
                |pre: Self, setting: Setting, post: Self, outcome: Result<(), Error>|
                    Self::applied(pre, setting, post, outcome),
                *old(self),
                config.plan(),
                *final(self),
                r,
            ),
            config.plan().len() == 0 ==> r is Ok && *final(self) == *old(self),
    {
        let plan = config.settings();
        let ghost start = *self;
        let ghost applied = |pre: Self, setting: Setting, post: Self, outcome: Result<(), Error>|
            Self::applied(pre, setting, post, outcome);
        let mut done: usize = 0;
        assert(plan@.skip(0) =~= plan@);
        while done < plan.len()
            invariant
                done <= plan.len(),
                plan@ == config.plan(),
                start == *old(self),
                applied == |pre: Self, setting: Setting, post: Self, outcome: Result<(), Error>|
                    Self::applied(pre, setting, post, outcome),
                forall|post: Self, r: Result<(), Error>|
                    configured(applied, *self, plan@.skip(done as int), post, r) ==> configured(
                        applied,
                        start,
                        plan@,
                        post,
                        r,
                    ),
            decreases plan.len() - done,
        {
            let ghost before = *self;
            let outcome = self.apply(plan[done]);
            proof {
                let rest = plan@.skip(done as int);
                assert(rest[0] == plan[done as int]);
                assert(rest.skip(1) =~= plan@.skip(done + 1));
                assert(applied(before, rest[0], *self, outcome));
            }
            if let Err(e) = outcome {
                assert(outcome == Err::<(), Error>(e));
                assert(configured(applied, before, plan@.skip(done as int), *self, outcome));
                return Err(e);
            }
            assert forall|post: Self, r: Result<(), Error>|
                configured(applied, *self, plan@.skip(done + 1), post, r) implies configured(
                applied,
                start,
                plan@,
                post,
                r,
            ) by {
                assert(configured(applied, before, plan@.skip(done as int), post, r));
            }
            done = done + 1;
        }
        assert(plan@.skip(done as int).len() == 0);
        assert(configured(applied, *self, plan@.skip(done as int), *self, Ok(())));
        Ok(())
    }

    /// Hands one setting to the setter of its property.
    fn apply(&mut self, setting: Setting) -> (r: Result<(), Error>)
        ensures
            Self::applied(*old(self), setting, *final(self), r),
    {
        match setting {
            Setting::Address(ip) => self.set_address(ip),
            Setting::Destination(ip) => self.set_destination(ip),
            Setting::Broadcast(ip) => self.set_broadcast(ip),
            Setting::Netmask(ip) => self.set_netmask(ip),
            Setting::Mtu(mtu) => self.set_mtu(mtu),
            Setting::Enabled(enabled) => self.enabled(enabled),
        }
    }

    /// Get the device name.
    fn name(&self) -> Result<String, Error>;

    /// Set the device name.
    fn set_name(&mut self, name: &str) -> Result<(), Error>;

    /// Turn on or off the interface.
    fn enabled(&mut self, value: bool) -> (r: Result<(), Error>)
        ensures
            Self::applied(*old(self), Setting::Enabled(value), *final(self), r),
    ;

    /// Get the address.
    fn address(&self) -> Result<IpAddress, Error>;

    /// Set the address.
    fn set_address(&mut self, value: IpAddress) -> (r: Result<(), Error>)
        ensures
            Self::applied(*old(self), Setting::Address(value), *final(self), r),
    ;

    /// Get the destination address.
    fn destination(&self) -> Result<IpAddress, Error>;

    /// Set the destination address.
    fn set_destination(&mut self, value: IpAddress) -> (r: Result<(), Error>)
        ensures
            Self::applied(*old(self), Setting::Destination(value), *final(self), r),
    ;

    /// Get the broadcast address.
    fn broadcast(&self) -> Result<IpAddress, Error>;

    /// Set the broadcast address.
    fn set_broadcast(&mut self, value: IpAddress) -> (r: Result<(), Error>)
        ensures
            Self::applied(*old(self), Setting::Broadcast(value), *final(self), r),
    ;

    /// Get the netmask.
    fn netmask(&self) -> Result<IpAddress, Error>;

    /// Set the netmask.
    fn set_netmask(&mut self, value: IpAddress) -> (r: Result<(), Error>)
        ensures
            Self::applied(*old(self), Setting::Netmask(value), *final(self), r),
    ;

    /// Get the MTU.
    fn mtu(&self) -> Result<usize, Error>;

    /// Set the MTU.
    fn set_mtu(&mut self, value: usize) -> (r: Result<(), Error>)
        ensures
            Self::applied(*old(self), Setting::Mtu(value), *final(self), r),
    ;

    /// Return whether the device has packet information
    fn packet_information(&self) -> bool;
}

} // verus!
