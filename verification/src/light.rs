//! The light of the scene.

use vstd::prelude::*;
use vstd::std_specs::ops::{AddSpec, NegSpec, SubSpec};

use crate::event::VirtualKeyCode;
use crate::scalar::{arithmetic, Scalar};

verus! {

/// The light as the shaders read it: where it is and what colour it has.
#[derive(Clone, Copy, Debug)]
pub struct LightUniform<S> {
    pub position: [S; 3],
    pub color: [S; 3],
}

/// Whether a key moves the light.
pub open spec fn is_light_key(key: VirtualKeyCode) -> bool {
    key == VirtualKeyCode::B || key == VirtualKeyCode::M || key == VirtualKeyCode::H || key
        == VirtualKeyCode::N || key == VirtualKeyCode::J || key == VirtualKeyCode::K
}

/// The position `(x, y, z)` after a key: B and M step along x, N and H along
/// y, J and K along z, each by `one`; any other key leaves the light where it
/// is.
pub open spec fn nudged<S: Scalar>(position: Seq<S>, key: VirtualKeyCode, one: S) -> Seq<S> {
    let x = position[0];
    let y = position[1];
    let z = position[2];
    match key {
        VirtualKeyCode::B => seq![x.add_spec(one.neg_spec()), y, z],
        VirtualKeyCode::M => seq![x.add_spec(one), y, z],
        VirtualKeyCode::H => seq![x, y.add_spec(one), z],
        VirtualKeyCode::N => seq![x, y.sub_spec(one), z],
        VirtualKeyCode::J => seq![x, y, z.sub_spec(one)],
        VirtualKeyCode::K => seq![x, y, z.add_spec(one)],
        _ => seq![x, y, z],
    }
}

impl<S: Scalar> LightUniform<S> {
    pub fn new(position: [S; 3], color: [S; 3]) -> (light: LightUniform<S>)
        ensures
            light.position == position,
            light.color == color,
    {
        LightUniform { position, color }
    }

    /// Puts the light at `position`.
    pub fn update_position(&mut self, position: [S; 3])
        ensures
            final(self).position == position,
            final(self).color == old(self).color,
    {
        self.position = position;
    }

    /// Moves the light by the step that `key` stands for. Returns whether
    /// the key is one of the six that move the light.
    pub fn nudge(&mut self, key: VirtualKeyCode, one: S) -> (moved: bool)
        requires
            arithmetic::<S>(),
        ensures
            final(self).position@ == nudged(old(self).position@, key, one),
            final(self).color == old(self).color,
            moved == is_light_key(key),
            !moved ==> *final(self) == *old(self),
    {
        let lx = self.position[0];
        let ly = self.position[1];
        let lz = self.position[2];
        let stepped = match key {
            VirtualKeyCode::B => Some([lx.add(one.neg()), ly, lz]),
            VirtualKeyCode::M => Some([lx.add(one), ly, lz]),
            VirtualKeyCode::H => Some([lx, ly.add(one), lz]),
            VirtualKeyCode::N => Some([lx, ly.sub(one), lz]),
            VirtualKeyCode::J => Some([lx, ly, lz.sub(one)]),
            VirtualKeyCode::K => Some([lx, ly, lz.add(one)]),
            _ => None,
        };
        match stepped {
            Some(position) => {
                assert(position@ =~= nudged(self.position@, key, one));
                self.update_position(position);
                true
            },
            None => {
                assert(self.position@ =~= nudged(self.position@, key, one));
                false
            },
        }
    }
}

} // verus!
