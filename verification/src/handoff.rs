//! The single slot through which a discovered keyboard is handed over.
//!
//! The slot is a bounded channel of depth one. Whoever finds a keyboard offers
//! it; the offer is refused while an earlier device still waits to be picked
//! up, and a refused offer is no error.

use crate::address::Address;
use embassy_sync::blocking_mutex::raw::NoopRawMutex;
use embassy_sync::channel::Channel;
use vstd::prelude::*;

verus! {

/// A device that a scan has picked out.
#[derive(Clone, Copy, Debug, PartialEq, Eq)]
pub struct DiscoveredDevice {
    pub address: Address,
}

/// A bounded channel of depth one for discovered devices: an
/// `embassy_sync::channel::Channel`, reached only through exclusive borrows.
/// The channel type cannot be declared to the verifier as it is, because its
/// mutex parameter is bound by a trait of its own crate; so it is kept behind
/// this struct, and all that is known of it is what the functions below say.
#[verifier::external_body]
pub struct HandoffChannel {
    inner: Channel<NoopRawMutex, DiscoveredDevice, 1>,
}

/// The devices that wait in a channel, oldest first.
pub uninterp spec fn queued(channel: HandoffChannel) -> Seq<DiscoveredDevice>;

/// `Channel::new`: the new channel holds nothing.
#[verifier::external_body]
fn channel_new() -> (channel: HandoffChannel)
    ensures
        queued(channel).len() == 0,
{
    HandoffChannel { inner: Channel::new() }
}

/// `Channel::try_send`: the device is appended if fewer devices wait than the
/// channel's depth of one; otherwise the channel stays as it is.
#[verifier::external_body]
fn channel_try_send(channel: &mut HandoffChannel, device: DiscoveredDevice) -> (sent: bool)
    ensures
        sent == (queued(*old(channel)).len() < 1),
        sent ==> queued(*final(channel)) == queued(*old(channel)).push(device),
        !sent ==> queued(*final(channel)) == queued(*old(channel)),
    no_unwind
{
    channel.inner.try_send(device).is_ok()
}

/// `Channel::try_receive`: the oldest waiting device is removed and returned;
/// nothing is returned, and nothing changes, when none waits.
#[verifier::external_body]
fn channel_try_receive(channel: &mut HandoffChannel) -> (device: Option<DiscoveredDevice>)
    ensures
        queued(*old(channel)).len() == 0 ==> device.is_none() && queued(*final(channel))
            == queued(*old(channel)),
        queued(*old(channel)).len() > 0 ==> device == Some(queued(*old(channel))[0])
            && queued(*final(channel)) == queued(*old(channel)).drop_first(),
    no_unwind
{
    channel.inner.try_receive().ok()
}

/// Outcome of an offer to the slot.
#[derive(Clone, Copy, Debug, PartialEq, Eq, Structural)]
pub enum Offer {
    /// The device waits in the slot.
    Accepted,
    /// An earlier device still waits; this one was dropped.
    ChannelFull,
}

/// The handoff slot.
pub struct Slot {
    channel: HandoffChannel,
}

impl Slot {
    #[verifier::type_invariant]
    spec fn within_depth(self) -> bool {
        queued(self.channel).len() <= 1
    }

    /// The device that waits in the slot, if one does.
    pub closed spec fn view(&self) -> Option<DiscoveredDevice> {
        if queued(self.channel).len() == 0 {
            None
        } else {
            Some(queued(self.channel)[0])
        }
    }

    /// An empty slot.
    pub fn new() -> (slot: Slot)
        ensures
            slot@.is_none(),
    {
        Slot { channel: channel_new() }
    }

    /// Offers a device. It is accepted exactly when the slot is empty; a
    /// refused offer leaves the waiting device in place.
    pub fn offer(&mut self, device: DiscoveredDevice) -> (outcome: Offer)
        ensures
            old(self)@.is_none() ==> outcome == Offer::Accepted && final(self)@ == Some(device),
            old(self)@.is_some() ==> outcome == Offer::ChannelFull && final(self)@ == old(self)@,
    {
        proof {
            use_type_invariant(&*self);
        }
        if channel_try_send(&mut self.channel, device) {
            Offer::Accepted
        } else {
            Offer::ChannelFull
        }
    }

    /// Takes the waiting device out of the slot, which is empty afterwards.
    pub fn take(&mut self) -> (device: Option<DiscoveredDevice>)
        ensures
            device == old(self)@,
            final(self)@.is_none(),
    {
        proof {
            use_type_invariant(&*self);
        }
        channel_try_receive(&mut self.channel)
    }
}

} // verus!
