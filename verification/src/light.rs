//! Lights and the storage that the shaders read them from.
//!
//! A light's record holds its view-projection matrix, its position and its
//! colour, 24 words in all. A set of lights is made for a fixed capacity:
//! its storage and its shadow texture have room for that many lights, and
//! it never holds more.

use crate::bytes::buffer_bytes;
use crate::bytes::in_machine_order;
use crate::camera::DEFAULT_FOVY;
use crate::camera::ONE;
use vstd::prelude::*;

verus! {

/// Number of words in the record of a light.
pub const LIGHT_RAW_WORDS: usize = 24;

/// Size of the record of a light in bytes.
pub const LIGHT_RAW_SIZE: u64 = 96;

/// Angle by which a light moves about the world's up axis each frame, in
/// thousandths of a degree.
pub const LIGHT_STEP: u32 = 200;

/// Width of the shadow texture in texels.
pub const SHADOW_WIDTH: u32 = 1;

/// Height of the shadow texture in texels.
pub const SHADOW_HEIGHT: u32 = 1;

/// The record of a light as the shaders read it.
#[derive(Clone, Copy, Debug, PartialEq, Eq)]
pub struct LightRaw {
    /// The matrix that takes the world into the light's clip space, four
    /// words four times.
    pub projection: [[u32; 4]; 4],
    pub position: [u32; 4],
    pub color: [u32; 4],
}

/// A light: where it is, its colour, its opening angle in radians, the
/// range of depths that it lights, and the layer of the shadow texture that
/// it casts its shadows into.
#[derive(Clone, Copy, Debug, PartialEq, Eq)]
pub struct Light {
    pub position: [u32; 3],
    pub color: [u32; 3],
    pub fov: u32,
    /// Nearest and farthest depth.
    pub depth: (u32, u32),
    pub shadow_view: Option<u32>,
}

/// A light with the record that was last derived from it.
#[derive(Clone, Copy, Debug, PartialEq, Eq)]
pub struct LightObject {
    pub light: Light,
    /// Content of the light's uniform buffer.
    pub raw: LightRaw,
}

/// Why a set of lights could not be made.
#[derive(Clone, Copy, Debug, PartialEq, Eq)]
pub enum LightError {
    /// The set is to have room for more lights than a texture can have
    /// layers.
    CapacityTooLarge { max_lights: usize },
    /// There are more lights than the set is to have room for.
    TooManyLights { count: usize, max_lights: usize },
    /// There is not one move for each light of the set.
    MoveCount { lights: usize, moves: usize },
}

/// Where a light is from now on, and the matrix that takes the world into
/// its clip space from there.
#[derive(Clone, Copy, Debug, PartialEq, Eq)]
pub struct LightMove {
    pub position: [u32; 3],
    pub view_proj: [[u32; 4]; 4],
}

/// A set of lights with room for `max_lights`.
#[derive(Debug)]
pub struct Lights {
    pub lights: Vec<LightObject>,
    /// Number of lights that storage and shadow texture have room for.
    pub max_lights: u32,
}

impl LightRaw {
    /// The words of the record in storage order: the matrix, the position,
    /// the colour.
    pub open spec fn spec_words(self) -> Seq<u32> {
        self.projection[0]@ + self.projection[1]@ + self.projection[2]@ + self.projection[3]@
            + self.position@ + self.color@
    }

    /// The words of the record in storage order.
    pub fn words(&self) -> (w: [u32; 24])
        ensures
            w@ == self.spec_words(),
    {
        let m = &self.projection;
        let w = [
            m[0][0],
            m[0][1],
            m[0][2],
            m[0][3],
            m[1][0],
            m[1][1],
            m[1][2],
            m[1][3],
            m[2][0],
            m[2][1],
            m[2][2],
            m[2][3],
            m[3][0],
            m[3][1],
            m[3][2],
            m[3][3],
            self.position[0],
            self.position[1],
            self.position[2],
            self.position[3],
            self.color[0],
            self.color[1],
            self.color[2],
            self.color[3],
        ];
        assert(w@ =~= self.spec_words());
        w
    }
}

impl Light {
    /// The record of the light, given the matrix that takes the world into
    /// its clip space: position and colour are completed by a one.
    pub open spec fn record(self, view_proj: [[u32; 4]; 4]) -> LightRaw {
        LightRaw {
            projection: view_proj,
            position: [self.position[0], self.position[1], self.position[2], ONE],
            color: [self.color[0], self.color[1], self.color[2], ONE],
        }
    }

    /// A light that casts no shadow yet.
    pub fn new(position: [u32; 3], color: [u32; 3], fov: u32, depth: (u32, u32)) -> (light: Light)
        ensures
            light == (Light { position, color, fov, depth, shadow_view: None }),
    {
        Light { position, color, fov, depth, shadow_view: None }
    }

    /// The light that a scene starts with.
    pub fn initial() -> (light: Light)
        ensures
            light == initial_light(),
    {
        Light::new([0x4348_0000, 0x4348_0000, 0x4000_0000], [ONE, ONE, ONE], DEFAULT_FOVY, (ONE, 0x41a0_0000))
    }

    /// Derives the record of the light.
    pub fn to_raw(&self, view_proj: [[u32; 4]; 4]) -> (raw: LightRaw)
        ensures
            raw == self.record(view_proj),
    {
        LightRaw {
            projection: view_proj,
            position: [self.position[0], self.position[1], self.position[2], ONE],
            color: [self.color[0], self.color[1], self.color[2], ONE],
        }
    }
}

/// The light that a scene starts with: white, at (200, 200, 2), opening 45
/// degrees, reaching from depth 1 to depth 20.
pub open spec fn initial_light() -> Light {
    Light {
        position: [0x4348_0000u32, 0x4348_0000u32, 0x4000_0000u32],
        color: [ONE, ONE, ONE],
        fov: DEFAULT_FOVY,
        depth: (ONE, 0x41a0_0000u32),
        shadow_view: None,
    }
}

impl LightObject {
    /// The light with its record.
    pub fn new(light: Light, view_proj: [[u32; 4]; 4]) -> (object: LightObject)
        ensures
            object == (LightObject { light, raw: light.record(view_proj) }),
    {
        LightObject { light, raw: light.to_raw(view_proj) }
    }

    /// The content of the light's uniform buffer: its record as bytes.
    pub fn buffer(&self) -> (bytes: Vec<u8>)
        ensures
            in_machine_order(self.raw.spec_words(), bytes@),
            bytes@.len() == LIGHT_RAW_SIZE,
    {
        let words = self.raw.words();
        buffer_bytes(words.as_slice())
    }

    /// Moves the light to `position` and derives its record anew.
    pub fn update(&mut self, position: [u32; 3], view_proj: [[u32; 4]; 4])
        ensures
            final(self).light == (Light { position, ..old(self).light }),
            final(self).raw == final(self).light.record(view_proj),
    {
        self.light.position = position;
        self.raw = self.light.to_raw(view_proj);
    }
}

/// The records of the first `n` of `lights`, one after the other.
pub open spec fn records(lights: Seq<LightObject>, n: int) -> Seq<u32>
    decreases n,
{
    if n <= 0 {
        Seq::empty()
    } else {
        records(lights, n - 1) + lights[n - 1].raw.spec_words()
    }
}

/// The records of lights lie one after the other, 24 words each: word `k`
/// of the record of light `i` is word `24 * i + k` of them all.
pub proof fn lemma_records_layout(lights: Seq<LightObject>, n: int, i: int, k: int)
    requires
        0 <= i < n <= lights.len(),
        0 <= k < 24,
    ensures
        records(lights, n).len() == 24 * n,
        records(lights, n)[24 * i + k] == lights[i].raw.spec_words()[k],
    decreases n,
{
    lemma_records_len(lights, n - 1);
    if i < n - 1 {
        lemma_records_layout(lights, n - 1, i, k);
    }
}

/// The records of `n` lights take `24 * n` words.
pub proof fn lemma_records_len(lights: Seq<LightObject>, n: int)
    requires
        0 <= n <= lights.len(),
    ensures
        records(lights, n).len() == 24 * n,
    decreases n,
{
    if n > 0 {
        lemma_records_len(lights, n - 1);
    }
}

/// The lights after each went by its move: light `i` is where move `i` puts
/// it, with the record derived from there; colour, opening, depth and
/// shadow layer stay.
pub open spec fn moved(lights: Seq<LightObject>, moves: Seq<LightMove>) -> Seq<LightObject> {
    Seq::new(
        lights.len(),
        |i: int|
            LightObject {
                light: Light { position: moves[i].position, ..lights[i].light },
                raw: (Light { position: moves[i].position, ..lights[i].light }).record(
                    moves[i].view_proj,
                ),
            },
    )
}

/// A set that is full is a set: for every number of lights that a texture
/// can have layers for, as many lights as the set has room for are taken.
pub proof fn lemma_full_set_is_made(max_lights: usize)
    requires
        max_lights <= u32::MAX,
    ensures
        capacity_error(max_lights, max_lights as nat).is_none(),
        forall|count: nat| count <= max_lights ==> capacity_error(max_lights, count).is_none(),
{
}

/// What stands in the way of a set of `count` lights with room for
/// `max_lights`, if anything does.
pub open spec fn capacity_error(max_lights: usize, count: nat) -> Option<LightError> {
    if max_lights > u32::MAX {
        Some(LightError::CapacityTooLarge { max_lights })
    } else if count > max_lights {
        Some(LightError::TooManyLights { count: count as usize, max_lights })
    } else {
        None
    }
}

impl Lights {
    /// Number of lights that the set has room for.
    pub open spec fn capacity(&self) -> nat {
        self.max_lights as nat
    }

    /// The set holds no more lights than it has room for, and light `i`
    /// casts its shadows into layer `i` of the shadow texture.
    pub open spec fn wf(&self) -> bool {
        &&& self.lights@.len() <= self.capacity()
        &&& forall|i: int|
            0 <= i < self.lights@.len() ==> (#[trigger] self.lights@[i]).light.shadow_view == Some(
                i as u32,
            )
    }

    /// Whether the set holds the lights `given`, each with its layer of the
    /// shadow texture.
    pub open spec fn holds(&self, given: Seq<LightObject>) -> bool {
        &&& self.lights@.len() == given.len()
        &&& forall|i: int|
            0 <= i < given.len() ==> (#[trigger] self.lights@[i]) == (LightObject {
                light: Light { shadow_view: Some(i as u32), ..given[i].light },
                ..given[i]
            })
    }

    /// A set of the given lights with room for `max_lights`.
    ///
    /// A set that is to hold more lights than it has room for is refused, as
    /// is one with room for more than a texture can have layers.
    pub fn new(max_lights: usize, lights: Vec<LightObject>) -> (r: Result<Lights, LightError>)
        ensures
            match r {
                Ok(set) => {
                    &&& capacity_error(max_lights, lights@.len()).is_none()
                    &&& set.wf()
                    &&& set.capacity() == max_lights
                    &&& set.holds(lights@)
                },
                Err(e) => capacity_error(max_lights, lights@.len()) == Some(e),
            },
    {
        if max_lights > 0xffff_ffff {
            return Err(LightError::CapacityTooLarge { max_lights });
        }
        let count: usize = lights.len();
        if count > max_lights {
            return Err(LightError::TooManyLights { count, max_lights });
        }
        let ghost given = lights@;
        let mut lights = lights;
        let mut i: usize = 0;
        while i < count
            invariant
                i <= count,
                count == lights@.len(),
                count == given.len(),
                count <= 0xffff_ffff,
                forall|k: int|
                    0 <= k < i ==> (#[trigger] lights@[k]) == (LightObject {
                        light: Light { shadow_view: Some(k as u32), ..given[k].light },
                        ..given[k]
                    }),
                forall|k: int| i <= k < count ==> (#[trigger] lights@[k]) == given[k],
            decreases count - i,
        {
            lights[i].light.shadow_view = Some(i as u32);
            i += 1;
        }
        Ok(Lights { lights, max_lights: max_lights as u32 })
    }

    /// Checks that the set is sound: it holds no more lights than it has
    /// room for, and each light casts its shadows into the layer of its
    /// number.
    pub fn is_sound(&self) -> (sound: bool)
        ensures
            sound == self.wf(),
    {
        let count: usize = self.lights.len();
        if count > self.max_lights as usize {
            return false;
        }
        let mut i: usize = 0;
        while i < count
            invariant
                i <= count,
                count == self.lights@.len(),
                count <= self.max_lights,
                forall|k: int|
                    0 <= k < i ==> (#[trigger] self.lights@[k]).light.shadow_view == Some(k as u32),
            decreases count - i,
        {
            match self.lights[i].light.shadow_view {
                Some(layer) => {
                    if layer as usize != i {
                        return false;
                    }
                },
                None => {
                    return false;
                },
            }
            i += 1;
        }
        true
    }

    /// Number of lights that storage and shadow texture are made for: as
    /// many as the set has room for, and one where it has room for none,
    /// since neither can be made empty.
    pub open spec fn room(&self) -> nat {
        if self.capacity() == 0 {
            1
        } else {
            self.capacity()
        }
    }

    /// Size of the storage in bytes: room for the records of as many lights
    /// as the set has room for, and for one at least.
    pub fn storage_size(&self) -> (size: u64)
        ensures
            size == LIGHT_RAW_SIZE * self.room(),
    {
        let room: u64 = if self.max_lights == 0 {
            1
        } else {
            self.max_lights as u64
        };
        assert(96 * room <= 96 * 0xffff_ffff);
        LIGHT_RAW_SIZE * room
    }

    /// Size of the shadow texture: width, height and number of layers, one
    /// layer for each light that the set has room for, and one at least.
    pub fn shadow_size(&self) -> (size: (u32, u32, u32))
        ensures
            size == (SHADOW_WIDTH, SHADOW_HEIGHT, self.room() as u32),
    {
        (
            SHADOW_WIDTH,
            SHADOW_HEIGHT,
            if self.max_lights == 0 {
                1
            } else {
                self.max_lights
            },
        )
    }

    /// Moves every light of the set and derives its record anew: light `i`
    /// goes by move `i`. If there is not one move for each light, nothing
    /// changes.
    pub fn update(&mut self, moves: &Vec<LightMove>) -> (r: Result<(), LightError>)
        ensures
            final(self).max_lights == old(self).max_lights,
            old(self).wf() ==> final(self).wf(),
            match r {
                Ok(()) => moves@.len() == old(self).lights@.len() && final(self).lights@ == moved(
                    old(self).lights@,
                    moves@,
                ),
                Err(e) => moves@.len() != old(self).lights@.len() && e == (LightError::MoveCount {
                    lights: old(self).lights@.len() as usize,
                    moves: moves@.len() as usize,
                }) && final(self).lights@ == old(self).lights@,
            },
    {
        let count: usize = self.lights.len();
        if moves.len() != count {
            return Err(LightError::MoveCount { lights: count, moves: moves.len() });
        }
        let mut i: usize = 0;
        while i < count
            invariant
                i <= count,
                count == self.lights@.len(),
                count == old(self).lights@.len(),
                count == moves@.len(),
                self.max_lights == old(self).max_lights,
                forall|k: int|
                    0 <= k < i ==> (#[trigger] self.lights@[k]) == moved(old(self).lights@, moves@)[k],
                forall|k: int| i <= k < count ==> (#[trigger] self.lights@[k]) == old(self).lights@[k],
            decreases count - i,
        {
            let step = moves[i];
            self.lights[i].update(step.position, step.view_proj);
            i += 1;
        }
        assert(self.lights@ =~= moved(old(self).lights@, moves@));
        Ok(())
    }

    /// What is written to the start of the storage: the records of the
    /// lights as bytes.
    pub fn light_storage_buf(&self) -> (bytes: Vec<u8>)
        requires
            self.wf(),
        ensures
            in_machine_order(records(self.lights@, self.lights@.len() as int), bytes@),
            bytes@.len() == LIGHT_RAW_SIZE * self.lights@.len(),
            bytes@.len() <= LIGHT_RAW_SIZE * self.room(),
    {
        let words = self.storage();
        buffer_bytes(words.as_slice())
    }

    /// What the storage holds: the records of the lights, one after the
    /// other from the start. The rest of the storage is not read.
    pub fn storage(&self) -> (words: Vec<u32>)
        requires
            self.wf(),
        ensures
            words@ == records(self.lights@, self.lights@.len() as int),
            words@.len() == 24 * self.lights@.len(),
            4 * words@.len() <= LIGHT_RAW_SIZE * self.room(),
    {
        let count: usize = self.lights.len();
        let mut words: Vec<u32> = Vec::new();
        let mut i: usize = 0;
        while i < count
            invariant
                i <= count,
                count == self.lights@.len(),
                words@ == records(self.lights@, i as int),
            decreases count - i,
        {
            let record = self.lights[i].raw.words();
            let mut k: usize = 0;
            while k < 24
                invariant
                    k <= 24,
                    i < count,
                    count == self.lights@.len(),
                    record@ == self.lights@[i as int].raw.spec_words(),
                    record@.len() == 24,
                    words@ == records(self.lights@, i as int) + record@.subrange(0, k as int),
                decreases 24 - k,
            {
                words.push(record[k]);
                k += 1;
                assert(words@ =~= records(self.lights@, i as int) + record@.subrange(0, k as int));
            }
            assert(record@.subrange(0, 24) =~= record@);
            i += 1;
        }
        proof {
            lemma_records_len(self.lights@, count as int);
        }
        words
    }
}

} // verus!
