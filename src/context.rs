use vstd::prelude::*;
use crate::format::{
    ColorFormat, Error, has_no_render_format, is_first_render_format, select_format,
};
use crate::surface::{PresentMode, RenderSurface, SurfaceConfig, initial_config};

verus! {

/// What finding a device for a request resolves to.
#[derive(Clone, Copy, Debug, PartialEq, Eq, Structural)]
pub enum DeviceStep {
    /// Reuse the device at this index of the pool.
    Use(usize),
    /// No device fits: a new one must be created and appended.
    Create,
}

/// `i` is the first device of the pool that supports the surface.
pub open spec fn is_first_supporting(supported: Seq<bool>, i: int) -> bool {
    &&& 0 <= i < supported.len()
    &&& supported[i]
    &&& forall|j: int| 0 <= j < i ==> !#[trigger] supported[j]
}

/// No device of the pool supports the surface.
pub open spec fn none_supporting(supported: Seq<bool>) -> bool {
    forall|j: int| 0 <= j < supported.len() ==> !#[trigger] supported[j]
}

/// Index of the first `true` in `supported`, if any.
pub fn first_supporting(supported: &Vec<bool>) -> (r: Option<usize>)
    ensures
        r is None <==> none_supporting(supported@),
        r matches Some(i) ==> is_first_supporting(supported@, i as int),
{
    let mut i: usize = 0;
    while i < supported.len()
        invariant
            0 <= i <= supported@.len(),
            forall|j: int| 0 <= j < i ==> !#[trigger] supported@[j],
        decreases supported@.len() - i,
    {
        if supported[i] {
            return Some(i);
        }
        i = i + 1;
    }
    None
}

/// Owner of the backend instance and of every device created for it. The
/// device list only ever grows, so an index handed out stays valid.
pub struct RenderContext<I, D> {
    pub instance: I,
    pub devices: Vec<D>,
}

impl<I, D> RenderContext<I, D> {
    /// A context over an already created backend instance, with no devices yet.
    pub fn new(instance: I) -> (r: Self)
        ensures
            r.instance == instance,
            r.devices@.len() == 0,
    {
        RenderContext { instance, devices: Vec::new() }
    }

    /// Finds a device for a request. With a surface, `supported[i]` tells whether
    /// device `i` supports it, and the first such device is taken; without one,
    /// the first device ever created is the default.
    pub fn find_device(&self, supported: Option<&Vec<bool>>) -> (r: DeviceStep)
        requires
            supported matches Some(v) ==> v@.len() == self.devices@.len(),
        ensures
            supported matches Some(v) ==> {
                &&& r is Create <==> none_supporting(v@)
                &&& r matches DeviceStep::Use(i) ==> is_first_supporting(v@, i as int)
            },
            supported is None ==> r == (if self.devices@.len() > 0 {
                DeviceStep::Use(0)
            } else {
                DeviceStep::Create
            }),
    {
        match supported {
            Some(v) => match first_supporting(v) {
                Some(i) => DeviceStep::Use(i),
                None => DeviceStep::Create,
            },
            None => {
                if self.devices.len() > 0 {
                    DeviceStep::Use(0)
                } else {
                    DeviceStep::Create
                }
            },
        }
    }

    /// Appends a newly created device and returns its index. When creation
    /// failed, nothing is appended.
    pub fn add_device(&mut self, created: Option<D>) -> (r: Option<usize>)
        ensures
            final(self).instance == old(self).instance,
            created is None ==> r is None && final(self).devices@ == old(self).devices@,
            created matches Some(d) ==> r == Some(old(self).devices@.len() as usize)
                && final(self).devices@ == old(self).devices@.push(d),
    {
        match created {
            Some(d) => {
                self.devices.push(d);
                Some(self.devices.len() - 1)
            },
            None => None,
        }
    }

    /// The device a surface is configured against.
    pub fn device_of<S>(&self, surface: &RenderSurface<S>) -> (r: &D)
        requires
            surface.dev_id < self.devices@.len(),
        ensures
            *r == self.devices@[surface.dev_id as int],
    {
        &self.devices[surface.dev_id]
    }

    /// Builds the render surface for a resolved device. `dev_id` is the device
    /// that was found or created for the surface, if any, and `formats` the
    /// color formats that its adapter reports for the surface.
    pub fn create_render_surface<S>(
        &self,
        surface: S,
        dev_id: Option<usize>,
        formats: &Vec<ColorFormat>,
        width: u32,
        height: u32,
        present_mode: PresentMode,
    ) -> (r: Result<RenderSurface<S>, Error>)
        requires
            dev_id matches Some(i) ==> i < self.devices@.len(),
        ensures
            r is Ok <==> dev_id is Some && !has_no_render_format(formats@),
            dev_id is None ==> (r matches Err(e) && e == Error::NoCompatibleDevice),
            dev_id is Some && has_no_render_format(formats@) ==> (r matches Err(e) && e
                == Error::UnsupportedSurfaceFormat),
            r matches Ok(s) ==> {
                &&& s.surface == surface
                &&& dev_id == Some(s.dev_id)
                &&& s.dev_id < self.devices@.len()
                &&& s.wf()
                &&& exists|i: int| is_first_render_format(formats@, i) && formats@[i] == s.format
                &&& s.config == initial_config(s.format, width, height, present_mode)
            },
    {
        let dev_id = match dev_id {
            Some(i) => i,
            None => return Err(Error::NoCompatibleDevice),
        };
        let format = match select_format(formats) {
            Ok(f) => f,
            Err(e) => return Err(e),
        };
        let config = SurfaceConfig::new(format, width, height, present_mode);
        Ok(RenderSurface { surface, config, dev_id, format })
    }

    /// Sets the surface's size; everything else about it stays.
    pub fn resize_surface<S>(&self, surface: &mut RenderSurface<S>, width: u32, height: u32)
        ensures
            final(surface).config == (SurfaceConfig {
                width,
                height,
                ..old(surface).config
            }),
            final(surface).format == old(surface).format,
            final(surface).dev_id == old(surface).dev_id,
            final(surface).surface == old(surface).surface,
    {
        surface.config.width = width;
        surface.config.height = height;
    }

    /// Sets the surface's present mode; everything else about it stays. The mode
    /// is not checked against the surface's capabilities: the caller is
    /// responsible for having chosen a supported one.
    pub fn set_present_mode<S>(&self, surface: &mut RenderSurface<S>, present_mode: PresentMode)
        ensures
            final(surface).config == (SurfaceConfig { present_mode, ..old(surface).config }),
            final(surface).format == old(surface).format,
            final(surface).dev_id == old(surface).dev_id,
            final(surface).surface == old(surface).surface,
    {
        surface.config.present_mode = present_mode;
    }
}

/// Once a device supporting a surface has been appended to a pool in which none
/// did, later requests for that surface resolve to that new device and only to
/// it, so the pool does not grow again for the same surface.
pub proof fn lemma_reuse_after_create(supported: Seq<bool>)
    requires
        none_supporting(supported),
    ensures
        is_first_supporting(supported.push(true), supported.len() as int),
        !none_supporting(supported.push(true)),
        forall|i: int| #[trigger]
            is_first_supporting(supported.push(true), i) ==> i == supported.len(),
{
    let s2 = supported.push(true);
    assert(s2[supported.len() as int]);
    assert forall|j: int| 0 <= j < supported.len() implies !#[trigger] s2[j] by {
        assert(s2[j] == supported[j]);
    }
    assert forall|i: int| #[trigger] is_first_supporting(s2, i) implies i == supported.len() by {
        if i < supported.len() {
            assert(s2[i] == supported[i]);
        }
    }
}

/// The device a request resolves to is unique: the first supporting device.
pub proof fn lemma_first_supporting_unique(supported: Seq<bool>, i: int, k: int)
    requires
        is_first_supporting(supported, i),
        is_first_supporting(supported, k),
    ensures
        i == k,
{
    if i < k {
        assert(!supported[i]);
    } else if k < i {
        assert(!supported[k]);
    }
}

} // verus!
