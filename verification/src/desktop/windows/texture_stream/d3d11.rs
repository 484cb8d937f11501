//! The graphics device that GStreamer and the web view share.
use crate::error;
use crate::error::Error;
use crate::error::Failure;
use vstd::prelude::*;

verus! {

/// A step on the way to a shared device.
#[derive(Clone, Copy, Debug, PartialEq, Eq, Structural)]
pub enum DeviceStep {
    InitializeMemory,
    MakeDevice,
    FindDevice,
    FindDeviceContext,
    MakeContext,
}

/// The steps to a device on the adapter of the web view, in order.
pub open spec fn device_steps() -> Seq<DeviceStep> {
    seq![
        DeviceStep::InitializeMemory,
        DeviceStep::MakeDevice,
        DeviceStep::FindDevice,
        DeviceStep::FindDeviceContext,
        DeviceStep::MakeContext,
    ]
}

/// The steps to a device on the adapter of the web view.
pub fn gst_device_for_adapter() -> (steps: Vec<DeviceStep>)
    ensures
        steps@ == device_steps(),
{
    let mut steps: Vec<DeviceStep> = Vec::new();
    steps.push(DeviceStep::InitializeMemory);
    steps.push(DeviceStep::MakeDevice);
    steps.push(DeviceStep::FindDevice);
    steps.push(DeviceStep::FindDeviceContext);
    steps.push(DeviceStep::MakeContext);
    assert(steps@ =~= device_steps());
    steps
}

/// The failure of a step that gave nothing.
pub open spec fn device_failure(step: DeviceStep) -> Option<Failure> {
    match step {
        DeviceStep::InitializeMemory => None,
        DeviceStep::MakeDevice => Some(
            Failure::Pipeline("GStreamer could not create a device on WebView2's adapter"@),
        ),
        DeviceStep::FindDevice => Some(Failure::Pipeline("GStreamer returned no D3D11 device"@)),
        DeviceStep::FindDeviceContext => Some(
            Failure::Pipeline("GStreamer returned no D3D11 device context"@),
        ),
        DeviceStep::MakeContext => Some(
            Failure::Pipeline("GStreamer could not create a D3D11 device context"@),
        ),
    }
}

/// Takes note of whether a step gave something. The first step gives nothing
/// and cannot fail.
pub fn device_step_taken(step: DeviceStep, given: bool) -> (result: Result<(), Error>)
    ensures
        match device_failure(step) {
            Some(failure) => if given {
                result is Ok
            } else {
                error::fails(result, failure)
            },
            None => result is Ok,
        },
{
    if given {
        return Ok(());
    }
    match step {
        DeviceStep::InitializeMemory => Ok(()),
        DeviceStep::MakeDevice => Err(
            Error::pipeline("GStreamer could not create a device on WebView2's adapter"),
        ),
        DeviceStep::FindDevice => Err(Error::pipeline("GStreamer returned no D3D11 device")),
        DeviceStep::FindDeviceContext => Err(
            Error::pipeline("GStreamer returned no D3D11 device context"),
        ),
        DeviceStep::MakeContext => Err(
            Error::pipeline("GStreamer could not create a D3D11 device context"),
        ),
    }
}

/// The id of an adapter as the signed number with the same bits.
pub open spec fn signed(luid: u64) -> int {
    if luid <= i64::MAX { luid as int } else { luid - 0x1_0000_0000_0000_0000 }
}

/// The id of an adapter as the signed number with the same bits.
pub fn signed_luid(luid: u64) -> (id: i64)
    ensures
        id == signed(luid),
{
    if luid <= i64::MAX as u64 {
        luid as i64
    } else {
        -((u64::MAX - luid) as i64) - 1
    }
}

/// The device is made first, then what hangs on it.
pub proof fn devices_are_made_in_order()
    ensures
        device_steps().len() == 5,
        device_steps()[0] == DeviceStep::InitializeMemory,
        device_steps()[1] == DeviceStep::MakeDevice,
        device_steps()[2] == DeviceStep::FindDevice,
        device_steps()[3] == DeviceStep::FindDeviceContext,
        device_steps()[4] == DeviceStep::MakeContext,
{
}

/// Only the first step cannot fail; the others say what is missing.
pub proof fn missing_devices_are_named(step: DeviceStep)
    ensures
        device_failure(step) is None <==> step == DeviceStep::InitializeMemory,
        device_failure(DeviceStep::MakeDevice) == Some(
            Failure::Pipeline("GStreamer could not create a device on WebView2's adapter"@),
        ),
        device_failure(DeviceStep::FindDevice) == Some(
            Failure::Pipeline("GStreamer returned no D3D11 device"@),
        ),
        device_failure(DeviceStep::FindDeviceContext) == Some(
            Failure::Pipeline("GStreamer returned no D3D11 device context"@),
        ),
        device_failure(DeviceStep::MakeContext) == Some(
            Failure::Pipeline("GStreamer could not create a D3D11 device context"@),
        ),
{
}

/// The signed number has the same bits: it fits, and differs by a multiple of
/// all that the bits can say.
pub proof fn signed_ids_keep_their_bits(luid: u64)
    ensures
        i64::MIN <= signed(luid) <= i64::MAX,
        signed(luid) == luid || signed(luid) + 0x1_0000_0000_0000_0000 == luid,
        (signed(luid) as i64) as u64 == luid,
{
    let id = signed(luid) as i64;
    if luid <= i64::MAX {
        assert(id as u64 == luid);
    } else {
        let rest = (luid - 0x8000_0000_0000_0000) as u64;
        assert(((rest as int - 0x8000_0000_0000_0000) as i64) as u64 == luid) by (bit_vector)
            requires
                rest < 0x8000_0000_0000_0000,
                luid == rest + 0x8000_0000_0000_0000,
        ;
    }
}

} // verus!
