//! Lights and the light manager.
//!
//! Each light serializes to one fixed 48-byte GPU record (twelve 32-bit
//! words). The manager keeps an ordered, capacity-bounded light list and
//! the byte images of two GPU buffers: the light buffer, always holding
//! exactly `max_lights` records (zero-padded), and the 4-byte light-count
//! buffer. Both are rewritten together on every `update`.

use vstd::prelude::*;
use vstd::bytes::{spec_u32_to_le_bytes, u32_to_le_bytes};
use crate::glam_ops::{glam_vec3_normalize, vec3_normalize};
use crate::gpu_bytes::{push_words_le, spec_words_le_bytes};
use crate::material::{BindGroupLayoutDesc, BindGroupLayoutEntryDesc, BindingTypeKind,
    ShaderStageKind};
use crate::math::Vec3Bits;

verus! {

/// Types of lights supported.
#[derive(Clone, Copy, PartialEq, Eq, Structural, Debug)]
pub enum LightType {
    Directional,
    Point,
}

/// The GPU record index of a light type: directional lights are 0, point
/// lights are 1.
pub open spec fn spec_light_type_index(t: LightType) -> u32 {
    match t {
        LightType::Directional => 0u32,
        LightType::Point => 1u32,
    }
}

impl LightType {
    /// The index stored in the GPU record for this light type.
    pub fn index(&self) -> (r: u32)
        ensures
            r == spec_light_type_index(*self),
    {
        match self {
            LightType::Directional => 0,
            LightType::Point => 1,
        }
    }
}

/// Light data for the shader: a fixed 48-byte record (twelve 32-bit
/// words): position, type, color, intensity, direction, range.
#[derive(Clone, Copy, Debug)]
pub struct LightData {
    pub position: [u32; 3],
    pub light_type: u32,
    pub color: [u32; 3],
    pub intensity: u32,
    pub direction: [u32; 3],
    pub range: u32,
}

/// The twelve words of one light record, in buffer order.
pub open spec fn spec_light_data_words(d: LightData) -> Seq<u32> {
    seq![
        d.position@[0],
        d.position@[1],
        d.position@[2],
        d.light_type,
        d.color@[0],
        d.color@[1],
        d.color@[2],
        d.intensity,
        d.direction@[0],
        d.direction@[1],
        d.direction@[2],
        d.range,
    ]
}

/// The twelve words of the all-zero padding record.
pub open spec fn spec_zero_light_words() -> Seq<u32> {
    seq![0u32, 0u32, 0u32, 0u32, 0u32, 0u32, 0u32, 0u32, 0u32, 0u32, 0u32, 0u32]
}

/// Base trait for all light kinds: each one knows its GPU record.
pub trait Light {
    /// The GPU record of this light, as a specification value.
    spec fn spec_light_data(&self) -> LightData;

    /// The type of this light, as a specification value.
    spec fn spec_light_type(&self) -> LightType;

    /// Get the light data for the shader.
    fn get_light_data(&self) -> (r: LightData)
        ensures
            r == self.spec_light_data(),
    ;

    /// Get the light type.
    fn get_type(&self) -> (r: LightType)
        ensures
            r == self.spec_light_type(),
    ;
}

/// Directional light (sun-like). The stored direction is the normalized
/// form of the one supplied at construction.
#[derive(Clone, Copy, PartialEq, Eq, Structural, Debug)]
pub struct DirectionalLight {
    pub direction: Vec3Bits,
    pub color: Vec3Bits,
    pub intensity: u32,
}

impl DirectionalLight {
    /// Create a new directional light; the direction is normalized.
    pub fn new(direction: Vec3Bits, color: Vec3Bits, intensity: u32) -> (r: DirectionalLight)
        ensures
            r.direction@ == glam_vec3_normalize(direction@),
            r.color == color,
            r.intensity == intensity,
    {
        DirectionalLight { direction: vec3_normalize(&direction), color, intensity }
    }
}

impl Light for DirectionalLight {
    /// Directional records carry no position and no range.
    open spec fn spec_light_data(&self) -> LightData {
        LightData {
            position: [0u32, 0u32, 0u32],
            light_type: 0u32,
            color: [self.color.x, self.color.y, self.color.z],
            intensity: self.intensity,
            direction: [self.direction.x, self.direction.y, self.direction.z],
            range: 0u32,
        }
    }

    open spec fn spec_light_type(&self) -> LightType {
        LightType::Directional
    }

    fn get_light_data(&self) -> (r: LightData) {
        let r = LightData {
            position: [0, 0, 0],
            light_type: 0,
            color: [self.color.x, self.color.y, self.color.z],
            intensity: self.intensity,
            direction: [self.direction.x, self.direction.y, self.direction.z],
            range: 0,
        };
        proof {
            assert(r.position@ =~= self.spec_light_data().position@);
            assert(r.color@ =~= self.spec_light_data().color@);
            assert(r.direction@ =~= self.spec_light_data().direction@);
        }
        r
    }

    fn get_type(&self) -> (r: LightType) {
        LightType::Directional
    }
}

/// Point light (omni-directional).
#[derive(Clone, Copy, PartialEq, Eq, Structural, Debug)]
pub struct PointLight {
    pub position: Vec3Bits,
    pub color: Vec3Bits,
    pub intensity: u32,
    pub range: u32,
}

impl PointLight {
    /// Create a new point light.
    pub fn new(position: Vec3Bits, color: Vec3Bits, intensity: u32, range: u32) -> (r: PointLight)
        ensures
            r == (PointLight { position, color, intensity, range }),
    {
        PointLight { position, color, intensity, range }
    }
}

impl Light for PointLight {
    /// Point records carry no direction.
    open spec fn spec_light_data(&self) -> LightData {
        LightData {
            position: [self.position.x, self.position.y, self.position.z],
            light_type: 1u32,
            color: [self.color.x, self.color.y, self.color.z],
            intensity: self.intensity,
            direction: [0u32, 0u32, 0u32],
            range: self.range,
        }
    }

    open spec fn spec_light_type(&self) -> LightType {
        LightType::Point
    }

    fn get_light_data(&self) -> (r: LightData) {
        let r = LightData {
            position: [self.position.x, self.position.y, self.position.z],
            light_type: 1,
            color: [self.color.x, self.color.y, self.color.z],
            intensity: self.intensity,
            direction: [0, 0, 0],
            range: self.range,
        };
        proof {
            assert(r.position@ =~= self.spec_light_data().position@);
            assert(r.color@ =~= self.spec_light_data().color@);
            assert(r.direction@ =~= self.spec_light_data().direction@);
        }
        r
    }

    fn get_type(&self) -> (r: LightType) {
        LightType::Point
    }
}

/// A light of either kind, as the manager stores it.
#[derive(Clone, Copy, PartialEq, Eq, Structural, Debug)]
pub enum LightSource {
    Directional(DirectionalLight),
    Point(PointLight),
}

impl LightSource {
    /// The GPU record of this light.
    pub open spec fn spec_data(&self) -> LightData {
        match self {
            LightSource::Directional(l) => l.spec_light_data(),
            LightSource::Point(l) => l.spec_light_data(),
        }
    }

    /// Get the light data for the shader.
    pub fn get_light_data(&self) -> (r: LightData)
        ensures
            r == self.spec_data(),
    {
        match self {
            LightSource::Directional(l) => l.get_light_data(),
            LightSource::Point(l) => l.get_light_data(),
        }
    }
}

/// The words of one buffer slot: the record of the `i`-th light when there
/// is one, the zero record otherwise.
pub open spec fn spec_light_slot_words(lights: Seq<LightSource>, i: int) -> Seq<u32> {
    if 0 <= i < lights.len() {
        spec_light_data_words(lights[i].spec_data())
    } else {
        spec_zero_light_words()
    }
}

/// The words of the first `n` slots of the light buffer, in order.
pub open spec fn spec_light_slots_words(lights: Seq<LightSource>, n: nat) -> Seq<u32>
    decreases n,
{
    if n == 0 {
        Seq::empty()
    } else {
        spec_light_slots_words(lights, (n - 1) as nat) + spec_light_slot_words(lights, n - 1)
    }
}

/// `n` slots serialize to `12 * n` words.
pub proof fn lemma_light_slots_words_len(lights: Seq<LightSource>, n: nat)
    ensures
        spec_light_slots_words(lights, n).len() == 12 * n,
    decreases n,
{
    if n > 0 {
        lemma_light_slots_words_len(lights, (n - 1) as nat);
    }
}

/// Law: the light buffer holds exactly `n` records, one per slot: the true
/// record for every stored light, the zero record for every slot past the
/// stored count.
pub proof fn lemma_light_buffer_covers_every_slot(lights: Seq<LightSource>, n: nat)
    ensures
        spec_light_slots_words(lights, n).len() == 12 * n,
        forall|i: int|
            0 <= i < n ==> #[trigger] spec_light_slots_words(lights, n).subrange(
                12 * i,
                12 * i + 12,
            ) == spec_light_slot_words(lights, i),
        forall|i: int|
            lights.len() <= i < n ==> #[trigger] spec_light_slots_words(lights, n).subrange(
                12 * i,
                12 * i + 12,
            ) == spec_zero_light_words(),
    decreases n,
{
    lemma_light_slots_words_len(lights, n);
    if n > 0 {
        let m = (n - 1) as nat;
        lemma_light_buffer_covers_every_slot(lights, m);
        lemma_light_slots_words_len(lights, m);
        let whole = spec_light_slots_words(lights, n);
        let prefix = spec_light_slots_words(lights, m);
        assert forall|i: int|
            0 <= i < n implies #[trigger] whole.subrange(12 * i, 12 * i + 12)
            == spec_light_slot_words(lights, i) by {
            if i < m {
                assert(whole.subrange(12 * i, 12 * i + 12) =~= prefix.subrange(
                    12 * i,
                    12 * i + 12,
                ));
            } else {
                assert(whole.subrange(12 * i, 12 * i + 12) =~= spec_light_slot_words(lights, i));
            }
        }
    }
}

/// What adding a light does to the stored list: appended below capacity,
/// silently dropped at capacity.
pub open spec fn spec_add_light(lights: Seq<LightSource>, max_lights: nat, light: LightSource)
    -> Seq<LightSource> {
    if lights.len() < max_lights {
        lights.push(light)
    } else {
        lights
    }
}

/// Law: adding lights never grows the stored list past the capacity.
pub proof fn lemma_add_light_never_exceeds_capacity(
    lights: Seq<LightSource>,
    max_lights: nat,
    light: LightSource,
)
    requires
        lights.len() <= max_lights,
    ensures
        spec_add_light(lights, max_lights, light).len() <= max_lights,
{
}

/// The bind group of the light manager: the light buffer at binding 0 and
/// the count buffer at binding 1.
#[derive(Clone, Copy, PartialEq, Eq, Structural, Debug)]
pub struct LightBindGroupDesc {
    pub light_buffer_binding: u32,
    pub light_count_binding: u32,
}

/// The entries of the light bind group layout: two fragment-visible
/// uniform buffers, at bindings 0 and 1.
pub open spec fn spec_light_layout_entries() -> Seq<BindGroupLayoutEntryDesc> {
    seq![
        BindGroupLayoutEntryDesc {
            binding: 0u32,
            visibility: ShaderStageKind::Fragment,
            ty: BindingTypeKind::UniformBuffer,
        },
        BindGroupLayoutEntryDesc {
            binding: 1u32,
            visibility: ShaderStageKind::Fragment,
            ty: BindingTypeKind::UniformBuffer,
        },
    ]
}

/// Light manager: the ordered, capacity-bounded light list and the byte
/// images of the light buffer and the light-count buffer.
pub struct LightManager {
    lights: Vec<LightSource>,
    light_buffer: Option<Vec<u8>>,
    light_bind_group: Option<LightBindGroupDesc>,
    light_bind_group_layout: Option<BindGroupLayoutDesc>,
    light_count_buffer: Option<Vec<u8>>,
    max_lights: usize,
}

impl LightManager {
    /// The stored lights, for contracts.
    pub closed spec fn spec_lights(&self) -> Seq<LightSource> {
        self.lights@
    }

    /// The capacity, for contracts.
    pub closed spec fn spec_max_lights(&self) -> usize {
        self.max_lights
    }

    /// The light buffer image, for contracts.
    pub closed spec fn spec_light_buffer(&self) -> Option<Seq<u8>> {
        match self.light_buffer {
            Some(b) => Some(b@),
            None => None,
        }
    }

    /// The light-count buffer image, for contracts.
    pub closed spec fn spec_light_count_buffer(&self) -> Option<Seq<u8>> {
        match self.light_count_buffer {
            Some(b) => Some(b@),
            None => None,
        }
    }

    /// True once `initialize` has run.
    pub closed spec fn spec_initialized(&self) -> bool {
        self.light_buffer is Some
    }

    /// Well-formedness: the list never exceeds the capacity, the capacity
    /// fits the GPU buffer arithmetic, and the buffers, layout and bind
    /// group are created together by `initialize`.
    pub closed spec fn wf(&self) -> bool {
        &&& self.lights@.len() <= self.max_lights
        &&& self.max_lights <= 0xffff_ffff
        &&& 48 * self.max_lights <= usize::MAX
        &&& (self.light_buffer is Some <==> self.light_count_buffer is Some)
        &&& (self.light_buffer is Some <==> self.light_bind_group_layout is Some)
        &&& (self.light_buffer is Some <==> self.light_bind_group is Some)
        &&& (self.light_bind_group_layout matches Some(l) ==> l.entries@
            == spec_light_layout_entries())
        &&& (self.light_bind_group matches Some(g) ==> g == (LightBindGroupDesc {
            light_buffer_binding: 0u32,
            light_count_binding: 1u32,
        }))
    }

    /// Create a new light manager with the given capacity.
    pub fn new(max_lights: usize) -> (r: LightManager)
        requires
            max_lights <= 0xffff_ffff,
            48 * max_lights <= usize::MAX,
        ensures
            r.wf(),
            r.spec_lights() == Seq::<LightSource>::empty(),
            r.spec_max_lights() == max_lights,
            !r.spec_initialized(),
            r.spec_light_buffer() is None,
            r.spec_light_count_buffer() is None,
    {
        let r = LightManager {
            lights: Vec::new(),
            light_buffer: None,
            light_bind_group: None,
            light_bind_group_layout: None,
            light_count_buffer: None,
            max_lights,
        };
        proof {
            assert(r.spec_lights() =~= Seq::<LightSource>::empty());
        }
        r
    }

    /// Add a light to the manager. Beyond the capacity the light is
    /// silently dropped: the stored list never grows past `max_lights`.
    pub fn add_light(&mut self, light: LightSource)
        requires
            old(self).wf(),
        ensures
            final(self).wf(),
            final(self).spec_lights() == spec_add_light(
                old(self).spec_lights(),
                old(self).spec_max_lights() as nat,
                light,
            ),
            final(self).spec_lights().len() <= final(self).spec_max_lights(),
            final(self).spec_max_lights() == old(self).spec_max_lights(),
            final(self).spec_light_buffer() == old(self).spec_light_buffer(),
            final(self).spec_light_count_buffer() == old(self).spec_light_count_buffer(),
    {
        if self.lights.len() < self.max_lights {
            self.lights.push(light);
        }
    }

    /// Get the number of lights.
    pub fn light_count(&self) -> (r: usize)
        ensures
            r == self.spec_lights().len(),
    {
        self.lights.len()
    }

    /// Initialize the buffer images and the bind group descriptions: the
    /// light buffer is zero-filled at `48 * max_lights` bytes and the count
    /// buffer holds the current count. Calling it again is a no-op, so the
    /// GPU objects are never allocated twice.
    pub fn initialize(&mut self)
        requires
            old(self).wf(),
        ensures
            final(self).wf(),
            final(self).spec_lights() == old(self).spec_lights(),
            final(self).spec_max_lights() == old(self).spec_max_lights(),
            final(self).spec_initialized(),
            old(self).spec_initialized() ==> *final(self) == *old(self),
            !old(self).spec_initialized() ==> final(self).spec_light_buffer() == Some(
                Seq::new(48 * old(self).spec_max_lights() as nat, |i: int| 0u8),
            ),
            !old(self).spec_initialized() ==> final(self).spec_light_count_buffer() == Some(
                spec_u32_to_le_bytes(old(self).spec_lights().len() as u32),
            ),
    {
        if self.light_buffer.is_some() {
            return ;
        }
        let size: usize = 48 * self.max_lights;
        let mut buffer: Vec<u8> = Vec::new();
        let mut i: usize = 0;
        while i < size
            invariant
                0 <= i <= size,
                buffer@ =~= Seq::new(i as nat, |j: int| 0u8),
            decreases size - i,
        {
            buffer.push(0);
            proof {
                assert(buffer@ =~= Seq::new((i + 1) as nat, |j: int| 0u8));
            }
            i += 1;
        }
        let count_buffer = u32_to_le_bytes(self.lights.len() as u32);

        let mut entries: Vec<BindGroupLayoutEntryDesc> = Vec::new();
        entries.push(
            BindGroupLayoutEntryDesc {
                binding: 0,
                visibility: ShaderStageKind::Fragment,
                ty: BindingTypeKind::UniformBuffer,
            },
        );
        entries.push(
            BindGroupLayoutEntryDesc {
                binding: 1,
                visibility: ShaderStageKind::Fragment,
                ty: BindingTypeKind::UniformBuffer,
            },
        );
        proof {
            assert(entries@ =~= spec_light_layout_entries());
        }

        self.light_buffer = Some(buffer);
        self.light_count_buffer = Some(count_buffer);
        self.light_bind_group_layout = Some(BindGroupLayoutDesc { entries });
        self.light_bind_group = Some(
            LightBindGroupDesc { light_buffer_binding: 0, light_count_binding: 1 },
        );
    }

    /// Rewrite both buffer images from the current light list: the light
    /// buffer holds exactly `max_lights` 48-byte records (stored lights
    /// first, zero records after), and the count buffer holds the true
    /// count. Before `initialize` this is a no-op, as there is nothing to
    /// write into.
    pub fn update(&mut self)
        requires
            old(self).wf(),
        ensures
            final(self).wf(),
            final(self).spec_lights() == old(self).spec_lights(),
            final(self).spec_max_lights() == old(self).spec_max_lights(),
            !old(self).spec_initialized() ==> *final(self) == *old(self),
            old(self).spec_initialized() ==> final(self).spec_light_buffer() == Some(
                spec_words_le_bytes(
                    spec_light_slots_words(
                        old(self).spec_lights(),
                        old(self).spec_max_lights() as nat,
                    ),
                ),
            ),
            old(self).spec_initialized() ==> final(self).spec_light_count_buffer() == Some(
                spec_u32_to_le_bytes(old(self).spec_lights().len() as u32),
            ),
    {
        if self.light_buffer.is_none() {
            return ;
        }
        let mut words: Vec<u32> = Vec::new();
        let mut i: usize = 0;
        while i < self.max_lights
            invariant
                *self == *old(self),
                old(self).wf(),
                old(self).spec_initialized(),
                0 <= i <= self.max_lights,
                words@ == spec_light_slots_words(self.lights@, i as nat),
            decreases self.max_lights - i,
        {
            let ghost before = words@;
            if i < self.lights.len() {
                let data = self.lights[i].get_light_data();
                words.push(data.position[0]);
                words.push(data.position[1]);
                words.push(data.position[2]);
                words.push(data.light_type);
                words.push(data.color[0]);
                words.push(data.color[1]);
                words.push(data.color[2]);
                words.push(data.intensity);
                words.push(data.direction[0]);
                words.push(data.direction[1]);
                words.push(data.direction[2]);
                words.push(data.range);
                proof {
                    assert(words@ =~= before + spec_light_data_words(
                        self.lights@[i as int].spec_data(),
                    ));
                }
            } else {
                let mut k: usize = 0;
                while k < 12
                    invariant
                        0 <= k <= 12,
                        words@ =~= before + spec_zero_light_words().take(k as int),
                    decreases 12 - k,
                {
                    words.push(0);
                    proof {
                        assert(words@ =~= before + spec_zero_light_words().take(k + 1));
                    }
                    k += 1;
                }
                proof {
                    assert(spec_zero_light_words().take(12) =~= spec_zero_light_words());
                }
            }
            proof {
                assert(words@ =~= spec_light_slots_words(self.lights@, (i + 1) as nat));
            }
            i += 1;
        }
        let mut buffer: Vec<u8> = Vec::new();
        push_words_le(&mut buffer, &words);
        self.light_buffer = Some(buffer);
        self.light_count_buffer = Some(u32_to_le_bytes(self.lights.len() as u32));
    }

    /// Get the light bind group description, once initialized.
    pub fn bind_group(&self) -> (r: Option<&LightBindGroupDesc>)
        requires
            self.wf(),
        ensures
            self.spec_initialized() <==> r is Some,
            r matches Some(g) ==> *g == (LightBindGroupDesc {
                light_buffer_binding: 0u32,
                light_count_binding: 1u32,
            }),
    {
        self.light_bind_group.as_ref()
    }

    /// Get the light bind group layout, once initialized.
    pub fn bind_group_layout(&self) -> (r: Option<&BindGroupLayoutDesc>)
        requires
            self.wf(),
        ensures
            self.spec_initialized() <==> r is Some,
            r matches Some(l) ==> l.entries@ == spec_light_layout_entries(),
    {
        self.light_bind_group_layout.as_ref()
    }

    /// The light buffer image to upload, once initialized.
    pub fn light_buffer_bytes(&self) -> (r: Option<&Vec<u8>>)
        ensures
            match r {
                Some(b) => self.spec_light_buffer() == Some(b@),
                None => self.spec_light_buffer() is None,
            },
    {
        self.light_buffer.as_ref()
    }

    /// The count buffer image to upload, once initialized.
    pub fn light_count_buffer_bytes(&self) -> (r: Option<&Vec<u8>>)
        ensures
            match r {
                Some(b) => self.spec_light_count_buffer() == Some(b@),
                None => self.spec_light_count_buffer() is None,
            },
    {
        self.light_count_buffer.as_ref()
    }
}

} // verus!
