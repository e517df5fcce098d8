//! What a caller may ask of a device: a sparse set of interface properties.

use vstd::prelude::*;

verus! {

/// A network address, by its octets in network order.
#[derive(Clone, Copy, Debug, PartialEq, Eq)]
pub enum IpAddress {
    V4([u8; 4]),
    V6([u8; 16]),
}

/// One interface property together with the value it is to get.
#[derive(Clone, Copy, Debug, PartialEq, Eq)]
pub enum Setting {
    Address(IpAddress),
    Destination(IpAddress),
    Broadcast(IpAddress),
    Netmask(IpAddress),
    Mtu(usize),
    Enabled(bool),
}

/// The properties to set on a device. A property that is `None` is left as it is.
#[derive(Clone, Copy, Debug, PartialEq, Eq)]
pub struct Configuration {
    pub address: Option<IpAddress>,
    pub destination: Option<IpAddress>,
    pub broadcast: Option<IpAddress>,
    pub netmask: Option<IpAddress>,
    pub mtu: Option<usize>,
    pub enabled: Option<bool>,
}

/// No setting for an absent value, one for a present value.
pub open spec fn present<V>(value: Option<V>, setting: spec_fn(V) -> Setting) -> Seq<Setting> {
    match value {
        Some(v) => seq![setting(v)],
        None => Seq::empty(),
    }
}

impl Configuration {
    /// The settings that this configuration asks for, in the order in which a device takes
    /// them: address, destination, broadcast, netmask, MTU, enabled. The address comes first
    /// because some platforms accept broadcast and netmask only of an interface that has one.
    pub open spec fn plan(self) -> Seq<Setting> {
        present(self.address, |v: IpAddress| Setting::Address(v)) + present(
            self.destination,
            |v: IpAddress| Setting::Destination(v),
        ) + present(self.broadcast, |v: IpAddress| Setting::Broadcast(v)) + present(
            self.netmask,
            |v: IpAddress| Setting::Netmask(v),
        ) + present(self.mtu, |v: usize| Setting::Mtu(v)) + present(
            self.enabled,
            |v: bool| Setting::Enabled(v),
        )
    }

    /// Lists the settings that this configuration asks for, in the order of `plan`.
    pub fn settings(&self) -> (r: Vec<Setting>)
        ensures
            r@ == self.plan(),
    {
        let mut list: Vec<Setting> = Vec::new();
        if let Some(ip) = self.address {
            list.push(Setting::Address(ip));
        }
        if let Some(ip) = self.destination {
            list.push(Setting::Destination(ip));
        }
        if let Some(ip) = self.broadcast {
            list.push(Setting::Broadcast(ip));
        }
        if let Some(ip) = self.netmask {
            list.push(Setting::Netmask(ip));
        }
        if let Some(mtu) = self.mtu {
            list.push(Setting::Mtu(mtu));
        }
        if let Some(enabled) = self.enabled {
            list.push(Setting::Enabled(enabled));
        }
        assert(list@ =~= self.plan());
        list
    }
}

impl Default for Configuration {
    /// The configuration that asks for nothing.
    fn default() -> (r: Self)
        ensures
            r == (Configuration {
                address: None,
                destination: None,
                broadcast: None,
                netmask: None,
                mtu: None,
                enabled: None,
            }),
            r.plan() == Seq::<Setting>::empty(),
    {
        let r = Configuration {
            address: None,
            destination: None,
            broadcast: None,
            netmask: None,
            mtu: None,
            enabled: None,
        };
        assert(r.plan() =~= Seq::<Setting>::empty());
        r
    }
}

} // verus!
