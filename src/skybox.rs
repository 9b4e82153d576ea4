use vstd::prelude::*;

verus! {

/// Relies on rand::random::<u8>: a byte drawn from the thread-local
/// generator. Nothing is promised of which byte comes.
#[verifier::external_body]
fn random_byte() -> (r: u8) {
    rand::random::<u8>()
}

/// The skyboxes that the game can show.
#[derive(Clone, Copy, Debug, PartialEq, Eq, Structural)]
pub enum SkyboxKind {
    City,
    Church,
    Forest,
    TownSquare,
    Mountainside,
}

/// How many skyboxes there are.
pub const SKYBOX_COUNT: u8 = 5;

/// The skybox at position `i` of the cycle.
pub open spec fn skybox_at(i: int) -> SkyboxKind {
    if i == 0 {
        SkyboxKind::City
    } else if i == 1 {
        SkyboxKind::Church
    } else if i == 2 {
        SkyboxKind::Forest
    } else if i == 3 {
        SkyboxKind::TownSquare
    } else {
        SkyboxKind::Mountainside
    }
}

/// The skybox at position `index` of the cycle.
pub fn skybox_for_index(index: u8) -> (r: SkyboxKind)
    requires
        index < SKYBOX_COUNT,
    ensures
        r == skybox_at(index as int),
{
    match index {
        0 => SkyboxKind::City,
        1 => SkyboxKind::Church,
        2 => SkyboxKind::Forest,
        3 => SkyboxKind::TownSquare,
        _ => SkyboxKind::Mountainside,
    }
}

/// The skybox shown, and whether its image has been set up as a cubemap.
#[derive(Clone, Copy, Debug, PartialEq, Eq, Structural)]
pub struct Cubemap {
    pub is_loaded: bool,
    pub index: u8,
    pub image: SkyboxKind,
}

impl Cubemap {
    /// The index names a skybox, and the image is that skybox.
    pub open spec fn wf(self) -> bool {
        self.index < SKYBOX_COUNT && self.image == skybox_at(self.index as int)
    }

    /// Whether the index names a skybox and the image is that skybox.
    pub fn is_well_formed(&self) -> (r: bool)
        ensures
            r == self.wf(),
    {
        self.index < SKYBOX_COUNT && self.image == skybox_for_index(self.index)
    }

    /// The cubemap at start: the city, its image not yet set up.
    pub fn new() -> (r: Cubemap)
        ensures
            r.wf(),
            r == (Cubemap { is_loaded: false, index: 0, image: SkyboxKind::City }),
    {
        Cubemap { is_loaded: false, index: 0, image: SkyboxKind::City }
    }

    /// Takes one random draw towards another skybox: the draw names the
    /// skybox `draw % 5`, which is taken unless it is the one shown.
    /// Returns whether it was taken.
    pub fn apply_draw(&mut self, draw: u8) -> (taken: bool)
        requires
            old(self).wf(),
        ensures
            final(self).wf(),
            taken == (draw % SKYBOX_COUNT != old(self).index),
            taken ==> *final(self) == (Cubemap {
                is_loaded: false,
                index: draw % SKYBOX_COUNT,
                image: skybox_at((draw % SKYBOX_COUNT) as int),
            }),
            !taken ==> *final(self) == *old(self),
    {
        let candidate: u8 = draw % SKYBOX_COUNT;
        if candidate == self.index {
            return false;
        }
        self.index = candidate;
        self.image = skybox_for_index(candidate);
        self.is_loaded = false;
        true
    }

    /// Draws a random number and applies it as `apply_draw` does. Repeated
    /// until it returns true, this moves to a skybox other than the one
    /// shown, chosen at random.
    pub fn try_cycle(&mut self) -> (taken: bool)
        requires
            old(self).wf(),
        ensures
            final(self).wf(),
            taken ==> final(self).index != old(self).index && !final(self).is_loaded,
            !taken ==> *final(self) == *old(self),
    {
        let draw: u8 = random_byte();
        self.apply_draw(draw)
    }

    /// Marks the image as set up. Returns whether it was not yet, in which
    /// case the host reinterprets the image and shows it on every skybox.
    pub fn finish_loading(&mut self) -> (refresh: bool)
        requires
            old(self).wf(),
        ensures
            refresh == !old(self).is_loaded,
            *final(self) == (Cubemap { is_loaded: true, ..*old(self) }),
            final(self).wf(),
    {
        let refresh = !self.is_loaded;
        self.is_loaded = true;
        refresh
    }
}

/// The number of layers into which a stacked 2D image is reinterpreted as a
/// cubemap: `height / width`, when the image has a single layer, a non-zero
/// width and a height that is a multiple of its width. `None`: leave it as is.
pub fn cubemap_layers(array_layer_count: u32, width: u32, height: u32) -> (r: Option<u32>)
    ensures
        r == (if array_layer_count == 1 && width > 0 && height % width == 0 {
            Some(height / width)
        } else {
            None::<u32>
        }),
{
    if array_layer_count == 1 && width > 0 && height % width == 0 {
        Some(height / width)
    } else {
        None
    }
}

} // verus!
