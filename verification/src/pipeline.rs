//! The compiled pipeline and the walk along one row of the grid in blocks of lanes.

use vstd::prelude::*;
use vstd::arithmetic::div_mod::{lemma_fundamental_div_mod, lemma_fundamental_div_mod_converse};
use crate::extremes::Extreme;
use crate::node::{compile, compiled, evaluate, value_at, Dimensions, NoiseNode};
use crate::noise::Noise;
use crate::rng::{first_draw, next_state, Rng};
use crate::scalar::Scalar;
use crate::unit::{count_of, dependable, perform, sum_of, Operation, Point};

verus! {

/// The axis along which a row runs.
#[derive(Clone, Copy, Debug, PartialEq, Eq, Structural)]
pub enum Axis {
    X,
    Y,
    Z,
}

/// The point `fixed` with its coordinate on `axis` replaced by `c`.
pub open spec fn place(axis: Axis, fixed: Point, c: Scalar) -> Point {
    match axis {
        Axis::X => Point { x: c, y: fixed.y, z: fixed.z },
        Axis::Y => Point { x: fixed.x, y: c, z: fixed.z },
        Axis::Z => Point { x: fixed.x, y: fixed.y, z: c },
    }
}

/// The coordinate reached from `c` by adding `step` to it `n` times.
pub open spec fn stepped<F: Fn(Operation) -> Scalar>(
    unit: &F,
    c: Scalar,
    step: Scalar,
    n: nat,
) -> Scalar
    decreases n,
{
    if n == 0 {
        c
    } else {
        sum_of(unit, stepped(unit, c, step, (n - 1) as nat), step)
    }
}

/// The coordinate of lane `lane` in block `block` of a row that starts at `start`: the
/// lane starts at `start` plus its number and moves on by the lane width with every
/// block.
pub open spec fn block_coordinate<F: Fn(Operation) -> Scalar>(
    unit: &F,
    start: Scalar,
    lanes: usize,
    block: nat,
    lane: usize,
) -> Scalar {
    stepped(unit, sum_of(unit, start, count_of(unit, lane)), count_of(unit, lanes), block)
}

/// The coordinate of element `i` of a row that starts at `start` and is walked in
/// blocks of `lanes` elements.
pub open spec fn lane_coordinate<F: Fn(Operation) -> Scalar>(
    unit: &F,
    start: Scalar,
    lanes: usize,
    i: int,
) -> Scalar {
    block_coordinate(unit, start, lanes, (i / lanes as int) as nat, (i % lanes as int) as usize)
}

/// The value of element `i` of a row: the root evaluated at the point of that element,
/// with the first draw of a generator seeded with `seed`.
pub open spec fn row_value<F: Fn(Operation) -> Scalar>(
    unit: &F,
    root: NoiseNode,
    seed: u64,
    axis: Axis,
    fixed: Point,
    start: Scalar,
    lanes: usize,
    i: int,
) -> Scalar {
    value_at(
        unit,
        root,
        place(axis, fixed, lane_coordinate(unit, start, lanes, i)),
        first_draw(seed),
    )
}

/// The first `count` values of a row.
pub open spec fn row<F: Fn(Operation) -> Scalar>(
    unit: &F,
    root: NoiseNode,
    seed: u64,
    axis: Axis,
    fixed: Point,
    start: Scalar,
    lanes: usize,
    count: nat,
) -> Seq<Scalar> {
    Seq::new(count, |i: int| row_value(unit, root, seed, axis, fixed, start, lanes, i))
}

/// Computes [`place`].
pub fn place_on(axis: Axis, fixed: Point, c: Scalar) -> (r: Point)
    ensures
        r == place(axis, fixed, c),
{
    match axis {
        Axis::X => Point { x: c, y: fixed.y, z: fixed.z },
        Axis::Y => Point { x: fixed.x, y: c, z: fixed.z },
        Axis::Z => Point { x: fixed.x, y: fixed.y, z: c },
    }
}

/// The coordinates of the lanes of the first block of a row.
pub fn lane_starts<F: Fn(Operation) -> Scalar>(unit: &F, start: Scalar, lanes: usize) -> (r: Vec<
    Scalar,
>)
    requires
        dependable(unit),
    ensures
        r.len() == lanes,
        forall|j: int|
            0 <= j < lanes ==> #[trigger] r[j] == block_coordinate(
                unit,
                start,
                lanes,
                0,
                j as usize,
            ),
{
    let mut r: Vec<Scalar> = Vec::new();
    let mut j: usize = 0;
    while j < lanes
        invariant
            dependable(unit),
            j <= lanes,
            r.len() == j,
            forall|i: int|
                0 <= i < j ==> #[trigger] r[i] == block_coordinate(
                    unit,
                    start,
                    lanes,
                    0,
                    i as usize,
                ),
        decreases lanes - j,
    {
        let offset = perform(unit, Operation::FromCount(j));
        let c = perform(unit, Operation::Add(start, offset));
        r.push(c);
        j = j + 1;
    }
    r
}

/// Moves every lane on by `step`.
pub fn shift<F: Fn(Operation) -> Scalar>(coordinates: &mut Vec<Scalar>, step: Scalar, unit: &F)
    requires
        dependable(unit),
    ensures
        final(coordinates).len() == old(coordinates).len(),
        forall|j: int|
            0 <= j < old(coordinates).len() ==> #[trigger] final(coordinates)[j] == sum_of(
                unit,
                old(coordinates)[j],
                step,
            ),
{
    let lanes = coordinates.len();
    let mut j: usize = 0;
    while j < lanes
        invariant
            dependable(unit),
            j <= lanes,
            coordinates.len() == lanes,
            lanes == old(coordinates).len(),
            forall|i: int|
                0 <= i < j ==> #[trigger] coordinates[i] == sum_of(unit, old(coordinates)[i], step),
            forall|i: int| j <= i < lanes ==> #[trigger] coordinates[i] == old(coordinates)[i],
        decreases lanes - j,
    {
        let c = perform(unit, Operation::Add(coordinates[j], step));
        coordinates.set(j, c);
        j = j + 1;
    }
}

/// A noise compiled for a rank and a lane width, with the generator that its base noise
/// draws from.
#[derive(Debug)]
pub struct NoisePipeline {
    pub rng: Rng,
    pub lanes: usize,
    pub root: NoiseNode,
}

impl NoisePipeline {
    /// Compiles the noise for a rank and a lane width.
    pub fn build(noise: &Noise, dimensions: Dimensions, lanes: usize) -> (r: Self)
        requires
            noise.well_formed(),
        ensures
            r.root == compiled(noise.settings, dimensions),
            r.lanes == lanes,
            r.rng.seed == noise.seed,
            r.rng.current_seed == noise.seed,
    {
        NoisePipeline {
            rng: Rng::new(noise.seed),
            lanes,
            root: compile(&noise.settings, dimensions),
        }
    }

    /// Compiles the noise for a rank and a lane width, or refuses it where a fractal
    /// node of its expression has no octave.
    pub fn try_build(noise: &Noise, dimensions: Dimensions, lanes: usize) -> (r: Option<Self>)
        ensures
            r.is_some() == noise.well_formed(),
            r matches Some(p) ==> {
                &&& p.root == compiled(noise.settings, dimensions)
                &&& p.lanes == lanes
                &&& p.rng.seed == noise.seed
                &&& p.rng.current_seed == noise.seed
            },
    {
        if noise.settings.check() {
            Some(NoisePipeline::build(noise, dimensions, lanes))
        } else {
            None
        }
    }

    /// Evaluates one block: the root at the point of every lane. The generator is wound
    /// back to its seed first and one value is drawn from it for the whole block, so that
    /// every block sees the same draw.
    pub fn execute<F: Fn(Operation) -> Scalar>(
        &mut self,
        axis: Axis,
        fixed: Point,
        coordinates: &Vec<Scalar>,
        unit: &F,
    ) -> (r: Vec<Scalar>)
        requires
            dependable(unit),
            coordinates.len() == old(self).lanes,
        ensures
            final(self).root == old(self).root,
            final(self).lanes == old(self).lanes,
            final(self).rng.seed == old(self).rng.seed,
            final(self).rng.current_seed == next_state(old(self).rng.seed),
            r.len() == old(self).lanes,
            forall|j: int|
                0 <= j < r.len() ==> #[trigger] r[j] == value_at(
                    unit,
                    old(self).root,
                    place(axis, fixed, coordinates[j]),
                    first_draw(old(self).rng.seed),
                ),
    {
        let lanes = self.lanes;
        self.rng.reset();
        let hash = self.rng.next();
        let mut r: Vec<Scalar> = Vec::new();
        let mut j: usize = 0;
        while j < lanes
            invariant
                dependable(unit),
                j <= lanes,
                lanes == coordinates.len(),
                self.root == old(self).root,
                self.lanes == old(self).lanes,
                self.rng.seed == old(self).rng.seed,
                self.rng.current_seed == next_state(old(self).rng.seed),
                hash == first_draw(old(self).rng.seed),
                r.len() == j,
                forall|i: int|
                    0 <= i < j ==> #[trigger] r[i] == value_at(
                        unit,
                        old(self).root,
                        place(axis, fixed, coordinates[i]),
                        hash,
                    ),
            decreases lanes - j,
        {
            let point = place_on(axis, fixed, coordinates[j]);
            let v = evaluate(&self.root, point, hash, unit);
            r.push(v);
            j = j + 1;
        }
        r
    }
}

/// The first `n + 1` values of a row are the first `n` and the one after.
pub proof fn lemma_row_push<F: Fn(Operation) -> Scalar>(
    unit: &F,
    root: NoiseNode,
    seed: u64,
    axis: Axis,
    fixed: Point,
    start: Scalar,
    lanes: usize,
    n: nat,
)
    ensures
        row(unit, root, seed, axis, fixed, start, lanes, n + 1) == row(
            unit,
            root,
            seed,
            axis,
            fixed,
            start,
            lanes,
            n,
        ).push(row_value(unit, root, seed, axis, fixed, start, lanes, n as int)),
{
    assert(row(unit, root, seed, axis, fixed, start, lanes, n + 1) =~= row(
        unit,
        root,
        seed,
        axis,
        fixed,
        start,
        lanes,
        n,
    ).push(row_value(unit, root, seed, axis, fixed, start, lanes, n as int)));
}

/// Element `block * lanes + lane` of a row lies in lane `lane` of block `block`.
pub proof fn lemma_lane_coordinate<F: Fn(Operation) -> Scalar>(
    unit: &F,
    start: Scalar,
    lanes: usize,
    block: nat,
    lane: usize,
)
    requires
        lane < lanes,
    ensures
        lane_coordinate(unit, start, lanes, block * lanes + lane) == block_coordinate(
            unit,
            start,
            lanes,
            block,
            lane,
        ),
{
    lemma_fundamental_div_mod_converse(
        block * lanes + lane,
        lanes as int,
        block as int,
        lane as int,
    );
}

/// Walks one row of `count` elements along `axis`, starting at coordinate `start` with
/// the other coordinates taken from `fixed`, and appends its values to `values`.
///
/// The row is walked in blocks of as many elements as the pipeline has lanes. Where
/// `count` is no multiple of the lane width, a last full block is evaluated and only
/// its leading values are kept. Values of full blocks are folded into the lane
/// accumulators of `low` and `high`, those of the partial block into their single ones.
pub fn walk_row<F: Fn(Operation) -> Scalar>(
    pipeline: &mut NoisePipeline,
    axis: Axis,
    fixed: Point,
    start: Scalar,
    count: usize,
    values: &mut Vec<Scalar>,
    low: &mut Extreme,
    high: &mut Extreme,
    unit: &F,
)
    requires
        dependable(unit),
        old(pipeline).lanes >= 1,
        !old(low).up,
        old(high).up,
        old(low).lanes.len() == old(pipeline).lanes,
        old(high).lanes.len() == old(pipeline).lanes,
        old(low).well_formed(),
        old(high).well_formed(),
        old(low).seen@ == old(values)@,
        old(high).seen@ == old(values)@,
    ensures
        final(pipeline).root == old(pipeline).root,
        final(pipeline).lanes == old(pipeline).lanes,
        final(pipeline).rng.seed == old(pipeline).rng.seed,
        final(pipeline).rng.current_seed == if count > 0 {
            next_state(old(pipeline).rng.seed)
        } else {
            old(pipeline).rng.current_seed
        },
        final(values)@ == old(values)@ + row(
            unit,
            old(pipeline).root,
            old(pipeline).rng.seed,
            axis,
            fixed,
            start,
            old(pipeline).lanes,
            count as nat,
        ),
        !final(low).up,
        final(high).up,
        final(low).lanes.len() == old(pipeline).lanes,
        final(high).lanes.len() == old(pipeline).lanes,
        final(low).well_formed(),
        final(high).well_formed(),
        final(low).seen@ == final(values)@,
        final(high).seen@ == final(values)@,
{
    let lanes = pipeline.lanes;
    let ghost root = pipeline.root;
    let ghost seed = pipeline.rng.seed;
    let ghost before = values@;
    let blocks = count / lanes;
    let remainder = count % lanes;
    proof {
        lemma_fundamental_div_mod(count as int, lanes as int);
        assert(blocks * lanes + remainder == count) by (nonlinear_arith)
            requires
                count == lanes * blocks + remainder,
        ;
    }
    let step = perform(unit, Operation::FromCount(lanes));
    let mut coordinates = lane_starts(unit, start, lanes);
    let mut block: usize = 0;
    assert(before + row(unit, root, seed, axis, fixed, start, lanes, 0) =~= before);
    while block < blocks
        invariant
            dependable(unit),
            lanes >= 1,
            block <= blocks,
            blocks * lanes + remainder == count,
            step == count_of(unit, lanes),
            pipeline.root == root,
            pipeline.lanes == lanes,
            pipeline.rng.seed == seed,
            pipeline.rng.current_seed == if block > 0 {
                next_state(seed)
            } else {
                old(pipeline).rng.current_seed
            },
            coordinates.len() == lanes,
            forall|j: int|
                0 <= j < lanes ==> #[trigger] coordinates[j] == block_coordinate(
                    unit,
                    start,
                    lanes,
                    block as nat,
                    j as usize,
                ),
            block * lanes <= count,
            values@ == before + row(
                unit,
                root,
                seed,
                axis,
                fixed,
                start,
                lanes,
                (block * lanes) as nat,
            ),
            !low.up,
            high.up,
            low.lanes.len() == lanes,
            high.lanes.len() == lanes,
            low.well_formed(),
            high.well_formed(),
            low.seen@ == values@,
            high.seen@ == values@,
        decreases blocks - block,
    {
        let f = pipeline.execute(axis, fixed, &coordinates, unit);
        low.fold_block(&f);
        high.fold_block(&f);
        let ghost filled = values@;
        let mut j: usize = 0;
        while j < lanes
            invariant
                j <= lanes,
                f.len() == lanes,
                values@ == filled + f@.take(j as int),
            decreases lanes - j,
        {
            values.push(f[j]);
            assert(filled + f@.take(j + 1) =~= (filled + f@.take(j as int)).push(f[j as int]));
            j = j + 1;
        }
        assert(f@.take(lanes as int) =~= f@);
        let ghost old_coordinates = coordinates@;
        shift(&mut coordinates, step, unit);
        proof {
            assert((block + 1) * lanes == block * lanes + lanes) by (nonlinear_arith);
            assert((block + 1) * lanes <= count) by (nonlinear_arith)
                requires
                    block + 1 <= blocks,
                    blocks * lanes + remainder == count,
                    lanes >= 1,
                    remainder >= 0,
            ;
            assert forall|j: int| 0 <= j < lanes implies #[trigger] coordinates[j]
                == block_coordinate(unit, start, lanes, (block + 1) as nat, j as usize) by {
                assert(old_coordinates[j] == block_coordinate(
                    unit,
                    start,
                    lanes,
                    block as nat,
                    j as usize,
                ));
            }
            let grown = row(
                unit,
                root,
                seed,
                axis,
                fixed,
                start,
                lanes,
                ((block + 1) * lanes) as nat,
            );
            let so_far = row(unit, root, seed, axis, fixed, start, lanes, (block * lanes) as nat);
            assert forall|i: int| 0 <= i < grown.len() implies grown[i] == (so_far + f@)[i] by {
                if i >= block * lanes {
                    let j = i - block * lanes;
                    lemma_lane_coordinate(unit, start, lanes, block as nat, j as usize);
                    assert(f[j] == value_at(
                        unit,
                        root,
                        place(axis, fixed, old_coordinates[j]),
                        first_draw(seed),
                    ));
                }
            }
            assert(grown =~= so_far + f@);
            assert(before + grown =~= (before + so_far) + f@);
        }
        block = block + 1;
    }
    if remainder != 0 {
        let f = pipeline.execute(axis, fixed, &coordinates, unit);
        let mut j: usize = 0;
        while j < remainder
            invariant
                j <= remainder,
                remainder < lanes,
                block == blocks,
                blocks * lanes + remainder == count,
                f.len() == lanes,
                coordinates.len() == lanes,
                forall|i: int|
                    0 <= i < lanes ==> #[trigger] f[i] == value_at(
                        unit,
                        root,
                        place(axis, fixed, coordinates[i]),
                        first_draw(seed),
                    ),
                forall|i: int|
                    0 <= i < lanes ==> #[trigger] coordinates[i] == block_coordinate(
                        unit,
                        start,
                        lanes,
                        block as nat,
                        i as usize,
                    ),
                values@ == before + row(
                    unit,
                    root,
                    seed,
                    axis,
                    fixed,
                    start,
                    lanes,
                    (blocks * lanes + j) as nat,
                ),
                !low.up,
                high.up,
                low.lanes.len() == lanes,
                high.lanes.len() == lanes,
                low.well_formed(),
                high.well_formed(),
                low.seen@ == values@,
                high.seen@ == values@,
            decreases remainder - j,
        {
            let n = f[j];
            low.fold_one(n);
            high.fold_one(n);
            values.push(n);
            proof {
                lemma_lane_coordinate(unit, start, lanes, blocks as nat, j);
                lemma_row_push(
                    unit,
                    root,
                    seed,
                    axis,
                    fixed,
                    start,
                    lanes,
                    (blocks * lanes + j) as nat,
                );
                assert(coordinates[j as int] == block_coordinate(
                    unit,
                    start,
                    lanes,
                    block as nat,
                    j,
                ));
                let so_far = row(
                    unit,
                    root,
                    seed,
                    axis,
                    fixed,
                    start,
                    lanes,
                    (blocks * lanes + j) as nat,
                );
                assert((before + so_far).push(n) =~= before + so_far.push(n));
            }
            j = j + 1;
        }
    }
}

} // verus!
