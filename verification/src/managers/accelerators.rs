//! What an engine can run on.

use vstd::prelude::*;

verus! {

/// A graphics processor as the driver lists it.
#[derive(Debug, Clone)]
pub struct GpuDevice {
    pub id: i32,
    pub name: String,
    /// The memory in bytes.
    pub total_vram: usize,
}

/// A graphics processor as it is offered for choice.
#[derive(Debug, Clone)]
pub struct GpuDeviceOption {
    pub id: i32,
    pub name: String,
    pub total_vram_mb: usize,
}

/// The accelerators that can be chosen.
#[derive(Debug, Clone)]
pub struct AvailableAccelerators {
    pub whisper: Vec<String>,
    pub ort: Vec<String>,
    pub gpu_devices: Vec<GpuDeviceOption>,
}

/// Whether `option` offers `device`: the same device, with its memory in whole mebibytes.
pub open spec fn offers(option: GpuDeviceOption, device: GpuDevice) -> bool {
    &&& option.id == device.id
    &&& option.name@ == device.name@
    &&& option.total_vram_mb == device.total_vram as nat / 0x10_0000
}

/// Whether `options` are the devices that are offered out of those listed.
pub open spec fn offered(
    has_fma: bool,
    devices: Seq<GpuDevice>,
    options: Seq<GpuDeviceOption>,
) -> bool {
    &&& options.len() == (if has_fma {
        devices.len()
    } else {
        0
    })
    &&& forall|i: int| 0 <= i < options.len() ==> offers(#[trigger] options[i], devices[i])
}

/// Offers the listed devices, in the same order. Without fused multiply-add the driver
/// must not be used, and nothing is offered.
pub fn gpu_device_options(has_fma: bool, devices: &Vec<GpuDevice>) -> (r: Vec<GpuDeviceOption>)
    ensures
        r@.len() == (if has_fma {
            devices@.len()
        } else {
            0
        }),
        forall|i: int| 0 <= i < r@.len() ==> offers(#[trigger] r@[i], devices@[i]),
        offered(has_fma, devices@, r@),
{
    let mut r: Vec<GpuDeviceOption> = Vec::new();
    if !has_fma {
        return r;
    }
    let mut i: usize = 0;
    while i < devices.len()
        invariant
            i <= devices.len(),
            r@.len() == i,
            forall|j: int| 0 <= j < i ==> offers(#[trigger] r@[j], devices@[j]),
        decreases devices.len() - i,
    {
        let device = &devices[i];
        r.push(
            GpuDeviceOption {
                id: device.id,
                name: device.name.clone(),
                total_vram_mb: device.total_vram / (1024 * 1024),
            },
        );
        i = i + 1;
    }
    r
}

/// Lists the accelerators: for Whisper always the same, for the others what the runtime
/// and the driver have.
pub fn get_available_accelerators(
    ort: Vec<String>,
    gpu_devices: Vec<GpuDeviceOption>,
) -> (r: AvailableAccelerators)
    ensures
        r.whisper@.len() == 3,
        r.whisper@[0]@ == "auto"@,
        r.whisper@[1]@ == "cpu"@,
        r.whisper@[2]@ == "gpu"@,
        r.ort == ort,
        r.gpu_devices == gpu_devices,
{
    let whisper: Vec<String> = vec!["auto".to_owned(), "cpu".to_owned(), "gpu".to_owned()];
    AvailableAccelerators { whisper, ort, gpu_devices }
}

/// A device is offered with as many whole mebibytes as its memory holds, the rest dropped,
/// under its own number and name.
pub proof fn memory_is_offered_in_whole_mebibytes(option: GpuDeviceOption, device: GpuDevice)
    requires
        offers(option, device),
    ensures
        0x10_0000 * option.total_vram_mb <= device.total_vram < 0x10_0000 * option.total_vram_mb
            + 0x10_0000,
        option.id == device.id,
        option.name@ == device.name@,
{
}

/// With fused multiply-add every listed device is offered, once and in its place; without it
/// none is.
pub proof fn all_devices_are_offered_or_none(
    has_fma: bool,
    devices: Seq<GpuDevice>,
    options: Seq<GpuDeviceOption>,
)
    requires
        offered(has_fma, devices, options),
    ensures
        !has_fma ==> options.len() == 0,
        has_fma ==> options.len() == devices.len(),
        forall|i: int|
            0 <= i < options.len() ==> (#[trigger] options[i]).id == devices[i].id
                && options[i].name@ == devices[i].name@ && 0x10_0000 * options[i].total_vram_mb
                <= devices[i].total_vram < 0x10_0000 * options[i].total_vram_mb + 0x10_0000,
{
    assert forall|i: int| 0 <= i < options.len() implies (#[trigger] options[i]).id == devices[i].id
        && options[i].name@ == devices[i].name@ && 0x10_0000 * options[i].total_vram_mb
        <= devices[i].total_vram < 0x10_0000 * options[i].total_vram_mb + 0x10_0000 by {
        memory_is_offered_in_whole_mebibytes(options[i], devices[i]);
    }
}

} // verus!
