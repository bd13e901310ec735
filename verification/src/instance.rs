//! The instances of the model: a square grid of copies around the origin.
//!
//! Positions are kept exact. A grid with an even number of columns has its
//! centre between two columns, so a position counts half world units: the
//! world coordinate is the stored number divided by two.

use vstd::prelude::*;
use vstd::std_specs::ops::{AddSpec, DivSpec};

use crate::buffer::{BufferDescriptor, BufferUsages};
use crate::layout::{
    packed_layout, packed_offset, VertexAttribute, VertexBufferLayout, VertexBufferLayoutView,
    VertexFormat, VertexStepMode,
};
use crate::math::Matrix;
use crate::matrix::{columns, from_translation, translation_columns};
use crate::primitives::Vertex;
use crate::scalar::{arithmetic, Scalar};

verus! {

/// World units from one instance to its neighbour in a row or a column.
pub const SPACE_BETWEEN: u32 = 3;

/// The angle, in degrees, by which every instance off the origin is turned.
pub const ROTATION_DEGREES: u32 = 45;

/// The axis that an instance is turned about.
#[derive(Clone, Copy, Debug, PartialEq, Eq, Structural)]
pub enum RotationAxis {
    /// The unit vector along z.
    UnitZ,
    /// The direction from the origin to the instance.
    Position,
}

/// A rotation by a whole number of degrees about an axis.
#[derive(Clone, Copy, Debug, PartialEq, Eq, Structural)]
pub struct Rotation {
    pub axis: RotationAxis,
    pub degrees: u32,
}

impl Rotation {
    /// Whether the rotation leaves everything where it is.
    pub open spec fn is_identity(self) -> bool {
        self.degrees == 0
    }
}

/// One copy of the model: where it stands on the ground plane, in half world
/// units, and how it is turned.
#[derive(Clone, Copy, Debug, PartialEq, Eq, Structural)]
pub struct Instance {
    /// Twice the world x coordinate.
    pub x: i64,
    /// Twice the world z coordinate.
    pub z: i64,
    pub rotation: Rotation,
}

impl Instance {
    /// Whether `position` is where the instance stands in world units, for
    /// the scalars `x` and `z` that `to_scalar` makes of its coordinates:
    /// each is halved, since the coordinates count half units, and the
    /// instance stands on the ground, at height `zero`. Two is `one + one`.
    pub open spec fn position_from<S: Scalar, T: Fn(i64) -> S>(
        self,
        position: [S; 3],
        zero: S,
        one: S,
        to_scalar: T,
        x: S,
        z: S,
    ) -> bool {
        &&& call_ensures(to_scalar, (self.x,), x)
        &&& call_ensures(to_scalar, (self.z,), z)
        &&& position@ == seq![
            x.div_spec(one.add_spec(one)),
            zero,
            z.div_spec(one.add_spec(one)),
        ]
    }

    /// Where the instance stands, in world units.
    pub fn world_position<S: Scalar, T: Fn(i64) -> S>(&self, zero: S, one: S, to_scalar: &T) -> (position:
        [S; 3])
        requires
            arithmetic::<S>(),
            forall|n: i64| call_requires(*to_scalar, (n,)),
        ensures
            exists|x: S, z: S| #[trigger]
                self.position_from(position, zero, one, *to_scalar, x, z),
    {
        let two = one.add(one);
        let x = to_scalar(self.x);
        let z = to_scalar(self.z);
        let position = [x.div(two), zero, z.div(two)];
        proof {
            assert(position@ =~= seq![
                x.div_spec(one.add_spec(one)),
                zero,
                z.div_spec(one.add_spec(one)),
            ]);
            assert(self.position_from(position, zero, one, *to_scalar, x, z));
        }
        position
    }
}

impl Instance {
    /// Whether `raw` holds the model matrix of the instance at `position`,
    /// for the axis `axis` and the angle `angle` of its rotation and the
    /// matrix `turn` that `rotation` makes of the two: the translation to
    /// the position times the rotation, in this order.
    ///
    /// An instance that is turned about the direction from the origin has
    /// that direction normalised for its axis. One that is not turned has
    /// the unit vector along z for its axis, and nothing is normalised: at
    /// the origin there is no direction to normalise.
    pub open spec fn raw_from<S: Scalar, T, N, R, M>(
        self,
        raw: InstanceRaw<S>,
        position: [S; 3],
        zero: S,
        one: S,
        to_scalar: T,
        normalize: N,
        rotation: R,
        multiply: M,
        axis: [S; 3],
        angle: S,
        turn: (Matrix<S>, Matrix<S>),
    ) -> bool where
        T: Fn(i64) -> S,
        N: Fn([S; 3]) -> [S; 3],
        R: Fn([S; 3], S) -> Matrix<S>,
        M: Fn(Matrix<S>, Matrix<S>) -> Matrix<S>,
     {
        &&& match self.rotation.axis {
            RotationAxis::UnitZ => axis@ == seq![zero, zero, one],
            RotationAxis::Position => call_ensures(normalize, (position,), axis),
        }
        &&& call_ensures(to_scalar, (self.rotation.degrees as i64,), angle)
        &&& call_ensures(rotation, (axis, angle), turn.0)
        &&& columns(turn.1) == translation_columns(
            position@[0],
            position@[1],
            position@[2],
            zero,
            one,
        )
        &&& call_ensures(multiply, (turn.1, turn.0), raw.model)
    }

    /// The instance as the vertex shader reads it. `position` is where the
    /// instance stands in world units; `rotation` makes the matrix of a
    /// rotation about an axis by an angle in degrees.
    pub fn to_raw<S: Scalar, T, N, R, M>(
        &self,
        position: [S; 3],
        zero: S,
        one: S,
        to_scalar: &T,
        normalize: &N,
        rotation: &R,
        multiply: &M,
    ) -> (raw: InstanceRaw<S>) where
        T: Fn(i64) -> S,
        N: Fn([S; 3]) -> [S; 3],
        R: Fn([S; 3], S) -> Matrix<S>,
        M: Fn(Matrix<S>, Matrix<S>) -> Matrix<S>,

        requires
            forall|n: i64| call_requires(*to_scalar, (n,)),
            forall|v: [S; 3]| call_requires(*normalize, (v,)),
            forall|axis: [S; 3], angle: S| call_requires(*rotation, (axis, angle)),
            forall|a: Matrix<S>, b: Matrix<S>| call_requires(*multiply, (a, b)),
        ensures
            exists|axis: [S; 3], angle: S, turn: (Matrix<S>, Matrix<S>)| #[trigger]
                self.raw_from(
                    raw,
                    position,
                    zero,
                    one,
                    *to_scalar,
                    *normalize,
                    *rotation,
                    *multiply,
                    axis,
                    angle,
                    turn,
                ),
    {
        let axis = match self.rotation.axis {
            RotationAxis::UnitZ => {
                let unit_z = [zero, zero, one];
                assert(unit_z@ =~= seq![zero, zero, one]);
                unit_z
            },
            RotationAxis::Position => normalize(position),
        };
        let angle = to_scalar(self.rotation.degrees as i64);
        let turn = rotation(axis, angle);
        let place = from_translation(position, zero, one);
        let raw = InstanceRaw { model: multiply(place, turn) };
        proof {
            assert(self.raw_from(
                raw,
                position,
                zero,
                one,
                *to_scalar,
                *normalize,
                *rotation,
                *multiply,
                axis,
                angle,
                (turn, place),
            ));
        }
        raw
    }
}

/// Twice the world coordinate of column (or row) `k` in a grid of `amount`
/// columns centred on the origin: the columns stand at
/// `SPACE_BETWEEN * (k - (amount - 1) / 2)`.
pub open spec fn grid_coordinate(amount: int, k: int) -> int {
    SPACE_BETWEEN * (2 * k - (amount - 1))
}

/// The rotation of the instance at `(x, z)`: none at the origin, where the
/// direction to the instance does not exist; elsewhere the fixed angle about
/// that direction.
pub open spec fn rotation_at(x: int, z: int) -> Rotation {
    if x == 0 && z == 0 {
        Rotation { axis: RotationAxis::UnitZ, degrees: 0 }
    } else {
        Rotation { axis: RotationAxis::Position, degrees: ROTATION_DEGREES }
    }
}

/// The instance in column `column` and row `row` of a grid of `amount` by
/// `amount`.
pub open spec fn instance_at(amount: int, column: int, row: int) -> Instance {
    let x = grid_coordinate(amount, column);
    let z = grid_coordinate(amount, row);
    Instance { x: x as i64, z: z as i64, rotation: rotation_at(x, z) }
}

proof fn lemma_cell_index(amount: int, row: int, column: int, rows: int)
    requires
        0 <= row < rows,
        0 <= column < amount,
    ensures
        0 <= row * amount + column < rows * amount,
        (row + 1) * amount == row * amount + amount,
{
    assert(row * amount + amount <= rows * amount) by (nonlinear_arith)
        requires
            row + 1 <= rows,
            0 <= amount,
    ;
    assert(0 <= row * amount) by (nonlinear_arith)
        requires
            0 <= row,
            0 <= amount,
    ;
    assert((row + 1) * amount == row * amount + amount) by (nonlinear_arith);
}

/// The grid of `amount` by `amount` instances, row after row, each row from
/// its first column to its last.
pub fn create_instances(amount: u32) -> (instances: Vec<Instance>)
    ensures
        instances@.len() == amount * amount,
        forall|row: int, column: int|
            0 <= row < amount && 0 <= column < amount ==> instances@[row * amount + column]
                == #[trigger] instance_at(amount as int, column, row),
{
    let mut instances: Vec<Instance> = Vec::new();
    let mut row: u32 = 0;
    while row < amount
        invariant
            0 <= row <= amount,
            instances@.len() == row * amount,
            forall|r: int, c: int|
                0 <= r < row && 0 <= c < amount ==> instances@[r * amount + c]
                    == #[trigger] instance_at(amount as int, c, r),
        decreases amount - row,
    {
        let z: i64 = (SPACE_BETWEEN as i64) * (2 * (row as i64) - (amount as i64 - 1));
        let mut column: u32 = 0;
        while column < amount
            invariant
                0 <= row < amount,
                0 <= column <= amount,
                z == grid_coordinate(amount as int, row as int),
                instances@.len() == row * amount + column,
                forall|r: int, c: int|
                    0 <= r < row && 0 <= c < amount ==> instances@[r * amount + c]
                        == #[trigger] instance_at(amount as int, c, r),
                forall|c: int|
                    0 <= c < column ==> instances@[row * amount + c] == #[trigger] instance_at(
                        amount as int,
                        c,
                        row as int,
                    ),
            decreases amount - column,
        {
            let x: i64 = (SPACE_BETWEEN as i64) * (2 * (column as i64) - (amount as i64 - 1));
            let rotation = if x == 0 && z == 0 {
                Rotation { axis: RotationAxis::UnitZ, degrees: 0 }
            } else {
                Rotation { axis: RotationAxis::Position, degrees: ROTATION_DEGREES }
            };
            let ghost before = instances@;
            instances.push(Instance { x, z, rotation });
            proof {
                assert forall|r: int, c: int| 0 <= r < row && 0 <= c < amount implies instances@[r
                    * amount + c] == #[trigger] instance_at(amount as int, c, r) by {
                    lemma_cell_index(amount as int, r, c, row as int);
                    assert(instances@[r * amount + c] == before[r * amount + c]);
                }
            }
            column = column + 1;
        }
        proof {
            lemma_cell_index(amount as int, row as int, 0, row as int + 1);
        }
        row = row + 1;
    }
    instances
}

/// An instance as the vertex shader reads it: its model matrix, column by
/// column.
#[derive(Clone, Copy, Debug)]
pub struct InstanceRaw<S> {
    pub model: [[S; 4]; 4],
}

/// The attributes of an [`InstanceRaw`]: the four columns of the matrix.
pub open spec fn instance_formats() -> Seq<VertexFormat> {
    seq![
        VertexFormat::Float32x4,
        VertexFormat::Float32x4,
        VertexFormat::Float32x4,
        VertexFormat::Float32x4,
    ]
}

/// The first shader location of the instance stream: the vertex stream of a
/// model takes the locations below it.
pub const FIRST_INSTANCE_LOCATION: u32 = 5;

impl<S> Vertex for InstanceRaw<S> {
    /// The four columns at locations 5 to 8, one element of 64 bytes for
    /// each instance. The layout is that of scalars of 32 bits.
    open spec fn spec_layout() -> VertexBufferLayoutView {
        VertexBufferLayoutView {
            array_stride: 64,
            step_mode: VertexStepMode::Instance,
            attributes: seq![
                VertexAttribute { format: VertexFormat::Float32x4, offset: 0, shader_location: 5 },
                VertexAttribute { format: VertexFormat::Float32x4, offset: 16, shader_location: 6 },
                VertexAttribute { format: VertexFormat::Float32x4, offset: 32, shader_location: 7 },
                VertexAttribute { format: VertexFormat::Float32x4, offset: 48, shader_location: 8 },
            ],
        }
    }

    fn layout() -> (layout: VertexBufferLayout) {
        let formats = [
            VertexFormat::Float32x4,
            VertexFormat::Float32x4,
            VertexFormat::Float32x4,
            VertexFormat::Float32x4,
        ];
        proof {
            reveal_with_fuel(packed_offset, 5);
            assert(formats@ =~= instance_formats());
            assert(packed_layout(
                VertexStepMode::Instance,
                formats@,
                FIRST_INSTANCE_LOCATION,
            ).attributes =~= Self::spec_layout().attributes);
        }
        VertexBufferLayout::packed(
            VertexStepMode::Instance,
            formats.as_slice(),
            FIRST_INSTANCE_LOCATION,
        )
    }
}

/// The device buffer that holds the instances, described by how many it was
/// filled with. The buffer is never patched: when the list of instances
/// changes in length or in content, a new buffer is made from the whole list.
#[derive(Clone, Copy, Debug, PartialEq, Eq, Structural)]
pub struct InstanceBuffer {
    /// Number of instances in the buffer.
    pub count: u32,
}

impl InstanceBuffer {
    /// The buffer for `instances`, or `None` when there are more of them than
    /// one draw can number.
    pub fn new(instances: &Vec<Instance>) -> (buffer: Option<InstanceBuffer>)
        ensures
            instances@.len() <= u32::MAX ==> buffer == Some(
                InstanceBuffer { count: instances@.len() as u32 },
            ),
            instances@.len() > u32::MAX ==> buffer is None,
    {
        let count: usize = instances.len();
        if count <= u32::MAX as usize {
            Some(InstanceBuffer { count: count as u32 })
        } else {
            None
        }
    }

    /// The buffer to create: one element of the instance layout for each
    /// instance.
    pub fn descriptor(&self) -> (descriptor: BufferDescriptor)
        ensures
            descriptor.label@ == "Instance Buffer"@,
            descriptor.size == self.count * 64,
            descriptor.usage == BufferUsages::vertex(),
    {
        BufferDescriptor {
            label: "Instance Buffer",
            size: (self.count as u64) * 64,
            usage: BufferUsages::vertex(),
        }
    }
}

/// The grid is symmetric about the origin: the instance in column `column`
/// and row `row` and the one in the column and the row counted from the other
/// end stand at opposite positions.
pub proof fn lemma_grid_symmetric(amount: int, column: int, row: int)
    requires
        0 <= column < amount,
        0 <= row < amount,
    ensures
        grid_coordinate(amount, amount - 1 - column) == -grid_coordinate(amount, column),
        grid_coordinate(amount, amount - 1 - row) == -grid_coordinate(amount, row),
        0 <= amount - 1 - column < amount,
        0 <= amount - 1 - row < amount,
{
}

/// Neighbours in a row or a column are `SPACE_BETWEEN` world units apart,
/// which is twice that in half units.
pub proof fn lemma_grid_spacing(amount: int, k: int)
    ensures
        grid_coordinate(amount, k + 1) - grid_coordinate(amount, k) == 2 * SPACE_BETWEEN,
{
}

/// An instance is left unturned exactly when it stands at the origin, and
/// that happens exactly in the middle of a grid with an odd number of
/// columns.
pub proof fn lemma_identity_at_origin(amount: int, column: int, row: int)
    requires
        0 <= column < amount,
        0 <= row < amount,
    ensures
        instance_at(amount, column, row).rotation.is_identity() <==> (grid_coordinate(
            amount,
            column,
        ) == 0 && grid_coordinate(amount, row) == 0),
        instance_at(amount, column, row).rotation.is_identity() <==> (2 * column == amount - 1 && 2
            * row == amount - 1),
{
}

} // verus!
