use vstd::prelude::*;
use crate::context::RenderContext;
use crate::format::Error;

verus! {

#[verifier::external_type_specification]
#[verifier::external_body]
pub struct ExAdapter(wgpu::Adapter);

#[verifier::external_type_specification]
#[verifier::external_body]
pub struct ExDevice(wgpu::Device);

#[verifier::external_type_specification]
#[verifier::external_body]
pub struct ExQueue(wgpu::Queue);

#[verifier::external_type_specification]
#[verifier::external_body]
pub struct ExSurface<'w>(wgpu::Surface<'w>);

#[verifier::external_type_specification]
#[verifier::external_body]
pub struct ExSurfaceTarget<'w>(wgpu::SurfaceTarget<'w>);

#[verifier::external_type_specification]
#[verifier::external_body]
pub struct ExCreateSurfaceError(wgpu::CreateSurfaceError);

#[verifier::external_type_specification]
#[verifier::external_body]
pub struct ExInstance(wgpu::Instance);

/// One adapter with the logical device and queue created from it. The adapter
/// serves the pool's capability queries only.
pub struct DeviceHandle {
    adapter: wgpu::Adapter,
    pub device: wgpu::Device,
    pub queue: wgpu::Queue,
}

impl DeviceHandle {
    pub closed spec fn spec_adapter(&self) -> wgpu::Adapter {
        self.adapter
    }

    pub closed spec fn spec_device(&self) -> wgpu::Device {
        self.device
    }

    pub closed spec fn spec_queue(&self) -> wgpu::Queue {
        self.queue
    }

    /// Bundles an adapter with the device and queue created on it.
    pub fn from_parts(adapter: wgpu::Adapter, device: wgpu::Device, queue: wgpu::Queue) -> (r:
        DeviceHandle)
        ensures
            r.spec_adapter() == adapter,
            r.spec_device() == device,
            r.spec_queue() == queue,
    {
        DeviceHandle { adapter, device, queue }
    }

    /// The adapter of this device, for the pool's capability queries (which
    /// surfaces it supports, and with which formats).
    pub fn adapter(&self) -> (r: &wgpu::Adapter)
        ensures
            *r == self.spec_adapter(),
    {
        &self.adapter
    }
}

/// Relies on wgpu::Instance::create_surface: a surface of this instance for the
/// target, or the backend's error.
#[verifier::external_body]
fn instance_create_surface<'w>(
    instance: &wgpu::Instance,
    target: wgpu::SurfaceTarget<'w>,
) -> (r: Result<wgpu::Surface<'w>, wgpu::CreateSurfaceError>) {
    instance.create_surface(target)
}

impl RenderContext<wgpu::Instance, DeviceHandle> {
    /// Creates a surface of this pool's instance for a window or other target.
    /// A backend failure is reported as `SurfaceCreationFailed`.
    pub fn create_surface<'w>(&self, target: wgpu::SurfaceTarget<'w>) -> (r: Result<
        wgpu::Surface<'w>,
        Error,
    >)
        ensures
            r matches Err(e) ==> e == Error::SurfaceCreationFailed,
    {
        match instance_create_surface(&self.instance, target) {
            Ok(surface) => Ok(surface),
            Err(_) => Err(Error::SurfaceCreationFailed),
        }
    }
}

} // verus!
