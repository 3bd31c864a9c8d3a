//! The VTF channels as the QingKe V3 cores hold them.
//!
//! On these cores the four channels share one base address register, which
//! holds the top four bits of every handler's address. A channel's own
//! register holds the line in its top byte and the low 24 bits of the
//! handler's address below it. A channel whose line is zero is not in use.

use crate::bits::lemma_top_byte;
use crate::pfic::map::{vtf_address_register, PFIC_VTFBADDRR};
use crate::pfic::{Pfic, PficView, VtfChannel, VTF_CHANNELS};
use vstd::prelude::*;

verus! {

/// The bits of a handler's address that the shared base register holds.
pub const VTF_BASE_MASK: u32 = 0xf000_0000;

/// The bits of a handler's address that a channel's own register holds.
pub const VTF_OFFSET_MASK: u32 = 0x00ff_ffff;

/// Channel `channel` as these cores read the registers: the line is the top
/// byte of the address register, the handler's address is what lies below
/// it, and the channel is in use where the line is not zero.
pub open spec fn vtf_channel(pfic: PficView, channel: u8) -> VtfChannel {
    VtfChannel {
        line: (pfic.vtf_address[channel as int] >> 24u32) as u8,
        handler: pfic.vtf_address[channel as int] & VTF_OFFSET_MASK,
        enabled: pfic.vtf_address[channel as int] >> 24u32 != 0,
    }
}

/// The controller with the line `irq` on the VTF channel `channel`: the
/// shared base register holds the top four bits of `address`, and the
/// channel's own register holds `irq` above the low 24 bits of `address`.
pub open spec fn with_vtf(pfic: PficView, channel: u8, irq: u8, address: u32) -> PficView {
    PficView {
        vtf_base: address & VTF_BASE_MASK,
        vtf_address: pfic.vtf_address.update(
            channel as int,
            ((irq as u32) << 24u32) | (address & VTF_OFFSET_MASK),
        ),
        ..pfic
    }
}

/// The controller with the VTF channel `channel` out of use: the line in
/// the channel's own register is zero.
pub open spec fn without_vtf(pfic: PficView, channel: u8) -> PficView {
    PficView {
        vtf_address: pfic.vtf_address.update(
            channel as int,
            pfic.vtf_address[channel as int] & VTF_OFFSET_MASK,
        ),
        ..pfic
    }
}

/// What `with_vtf` does to the channels: channel `channel` holds the line
/// and the low 24 bits of the handler's address, and is in use unless the
/// line is zero; every other channel is as it was.
pub proof fn lemma_with_vtf(pfic: PficView, channel: u8, irq: u8, address: u32)
    requires
        pfic.wf(),
        channel < VTF_CHANNELS,
    ensures
        with_vtf(pfic, channel, irq, address).wf(),
        vtf_channel(with_vtf(pfic, channel, irq, address), channel) == (VtfChannel {
            line: irq,
            handler: address & VTF_OFFSET_MASK,
            enabled: irq != 0,
        }),
        forall|other: u8|
            other < VTF_CHANNELS && other != channel ==> #[trigger] vtf_channel(
                with_vtf(pfic, channel, irq, address),
                other,
            ) == vtf_channel(pfic, other),
{
    lemma_top_byte(irq as u32, address);
}

/// What `without_vtf` does to the channels: channel `channel` is out of use,
/// its line zero, and keeps the low 24 bits of its handler's address; every
/// other channel is as it was.
pub proof fn lemma_without_vtf(pfic: PficView, channel: u8)
    requires
        pfic.wf(),
        channel < VTF_CHANNELS,
    ensures
        without_vtf(pfic, channel).wf(),
        vtf_channel(without_vtf(pfic, channel), channel) == (VtfChannel {
            line: 0,
            enabled: false,
            ..vtf_channel(pfic, channel)
        }),
        forall|other: u8|
            other < VTF_CHANNELS && other != channel ==> #[trigger] vtf_channel(
                without_vtf(pfic, channel),
                other,
            ) == vtf_channel(pfic, other),
{
    lemma_top_byte(0, pfic.vtf_address[channel as int]);
}

/// Enabling a VTF channel and then disabling it leaves the channel out of
/// use, and leaves the other three channels and the state of every line as
/// they were before. The base address that the channels share is the one
/// that the enabling wrote.
pub proof fn lemma_vtf_enable_then_disable(pfic: PficView, channel: u8, irq: u8, address: u32)
    requires
        pfic.wf(),
        channel < VTF_CHANNELS,
    ensures
        ({
            let after = without_vtf(with_vtf(pfic, channel, irq, address), channel);
            &&& !vtf_channel(after, channel).enabled
            &&& vtf_channel(after, channel).handler == address & VTF_OFFSET_MASK
            &&& forall|other: u8|
                other < VTF_CHANNELS && other != channel ==> #[trigger] vtf_channel(after, other)
                    == vtf_channel(pfic, other)
            &&& after.enabled == pfic.enabled
            &&& after.pending == pfic.pending
            &&& after.active == pfic.active
            &&& after.priority == pfic.priority
            &&& after.vtf_lines == pfic.vtf_lines
            &&& after.vtf_base == address & VTF_BASE_MASK
            &&& after.system_control == pfic.system_control
        }),
{
    let enabled = with_vtf(pfic, channel, irq, address);
    lemma_with_vtf(pfic, channel, irq, address);
    lemma_without_vtf(enabled, channel);
    let after = without_vtf(enabled, channel);
    assert forall|other: u8| other < VTF_CHANNELS && other != channel implies #[trigger] vtf_channel(
        after,
        other,
    ) == vtf_channel(pfic, other) by {
        assert(vtf_channel(enabled, other) == vtf_channel(pfic, other));
    }
}

/// The value of the base address register for a handler at `address`.
pub fn vtf_base_value(address: u32) -> (value: u32)
    ensures
        value == address & VTF_BASE_MASK,
{
    address & 0xF000_0000
}

/// The value of the address register of a channel for the line `irq` with
/// the handler at `address`.
pub fn vtf_channel_value(irq: u8, address: u32) -> (value: u32)
    ensures
        value == ((irq as u32) << 24u32) | (address & VTF_OFFSET_MASK),
{
    ((irq as u32) << 24) | (address & 0x00FF_FFFF)
}

/// The value of an address register that holds `value`, for a channel that
/// is out of use.
pub fn vtf_cleared_value(value: u32) -> (cleared: u32)
    ensures
        cleared == value & VTF_OFFSET_MASK,
{
    value & 0x00FF_FFFF
}

/// Gives the line `irq` the fast path of the VTF channel `channel`, with the
/// handler at `address`. The base address that all channels share is
/// overwritten with the top four bits of `address`; the four bits below
/// them are held nowhere.
pub fn enable_vtf(pfic: &mut Pfic, channel: u8, irq: u8, address: u32)
    requires
        channel < VTF_CHANNELS,
    ensures
        final(pfic)@ == with_vtf(old(pfic)@, channel, irq, address),
        vtf_channel(final(pfic)@, channel) == (VtfChannel {
            line: irq,
            handler: address & VTF_OFFSET_MASK,
            enabled: irq != 0,
        }),
        forall|other: u8|
            other < VTF_CHANNELS && other != channel ==> #[trigger] vtf_channel(
                final(pfic)@,
                other,
            ) == vtf_channel(old(pfic)@, other),
{
    proof {
        pfic.lemma_view_wf();
        lemma_with_vtf(pfic@, channel, irq, address);
    }
    pfic.write32(PFIC_VTFBADDRR, vtf_base_value(address));
    pfic.write32(vtf_address_register(channel), vtf_channel_value(irq, address));
}

/// Takes the VTF channel `channel` out of use: clears its line and keeps
/// the handler's address. The other channels and the shared base address
/// are not touched.
pub fn disable_vtf(pfic: &mut Pfic, channel: u8)
    requires
        channel < VTF_CHANNELS,
    ensures
        final(pfic)@ == without_vtf(old(pfic)@, channel),
        vtf_channel(final(pfic)@, channel) == (VtfChannel {
            line: 0,
            enabled: false,
            ..vtf_channel(old(pfic)@, channel)
        }),
        forall|other: u8|
            other < VTF_CHANNELS && other != channel ==> #[trigger] vtf_channel(
                final(pfic)@,
                other,
            ) == vtf_channel(old(pfic)@, other),
{
    proof {
        pfic.lemma_view_wf();
        lemma_without_vtf(pfic@, channel);
    }
    let val = match pfic.read32(vtf_address_register(channel)) {
        Some(val) => val,
        None => 0,
    };
    pfic.write32(vtf_address_register(channel), vtf_cleared_value(val));
}

/// Reads the VTF channel `channel`: its line, the low 24 bits of its
/// handler's address, and whether it is in use.
pub fn read_vtf(pfic: &Pfic, channel: u8) -> (state: VtfChannel)
    requires
        channel < VTF_CHANNELS,
    ensures
        state == vtf_channel(pfic@, channel),
{
    let val = match pfic.read32(vtf_address_register(channel)) {
        Some(val) => val,
        None => 0,
    };
    proof {
        lemma_top_byte(0, val);
    }
    VtfChannel { line: (val >> 24) as u8, handler: val & VTF_OFFSET_MASK, enabled: val >> 24 != 0 }
}

/// Reads the base address that the VTF channels share.
pub fn read_vtf_base(pfic: &Pfic) -> (base: u32)
    ensures
        base == pfic@.vtf_base,
{
    match pfic.read32(PFIC_VTFBADDRR) {
        Some(base) => base,
        None => 0,
    }
}

} // verus!
