use vstd::prelude::*;

verus! {

/// Fixed-point scale of a standard-normal sample: a sample `z` stands for
/// `z / SAMPLE_SCALE`.
pub const SAMPLE_SCALE: i64 = 65536;

/// Fixed-point scale of the phase deviation: a `std_phase` of `s` stands for
/// `s / PHASE_STD_SCALE` of a turn.
pub const PHASE_STD_SCALE: i64 = 65536;

/// Subdivisions of one vertex slot (one `n_verts`-th of a turn) in which
/// output phases are counted: `SAMPLE_SCALE * PHASE_STD_SCALE`.
pub const TURN_SUBDIVISIONS: i128 = 4294967296;

/// The two standard-normal samples drawn for one vertex, in fixed point
/// (see `SAMPLE_SCALE`): first the phase sample, then the radius sample.
#[derive(Clone, Copy, Debug, PartialEq, Eq, Structural)]
pub struct VertexNoise {
    pub phase: i32,
    pub radius: i32,
}

/// A generated vertex in polar form.
///
/// `phase` counts `1 / (n_verts * TURN_SUBDIVISIONS)` of a turn, so that the
/// angle in radians is `2π * phase / phase_denominator(n_verts)`.
/// `radius` counts `1 / SAMPLE_SCALE` of the caller's length unit.
#[derive(Clone, Copy, Debug, PartialEq, Eq, Structural)]
pub struct PolarVertex {
    pub phase: i128,
    pub radius: u128,
}

/// Why a polygon could not be generated.
#[derive(Clone, Copy, Debug, PartialEq, Eq, Structural)]
pub enum PolyError {
    /// Fewer than two vertices were asked for, or the mean radius is not positive.
    InvalidParameter,
}

pub open spec fn max_int(a: int, b: int) -> int {
    if a >= b { a } else { b }
}

/// The phase that vertex `i` of `n` would take before ordering is enforced:
/// `i / n` of a turn plus the sample times the phase deviation.
pub open spec fn candidate_phase(n: int, i: int, z: int, std_phase: int) -> int {
    i * TURN_SUBDIVISIONS + z * std_phase * n
}

/// The radius of a vertex: the mean plus the sample times the deviation,
/// and never below zero.
pub open spec fn radius_of(mean_rad: int, std_rad: int, z: int) -> int {
    max_int(0, mean_rad * SAMPLE_SCALE + z * std_rad)
}

/// The generator's preconditions: at least two vertices and a positive mean radius.
pub open spec fn valid_params(n_verts: int, mean_rad: int) -> bool {
    n_verts >= 2 && mean_rad > 0
}

/// The phase of vertex `k`: the running maximum of the candidate phases of
/// vertices `0..=k`, starting from zero.
pub open spec fn phase_at(n: int, std_phase: int, noise: Seq<VertexNoise>, k: int) -> int
    decreases k,
{
    let c = candidate_phase(n, k, noise[k].phase as int, std_phase);
    if k <= 0 {
        max_int(0, c)
    } else {
        max_int(phase_at(n, std_phase, noise, k - 1), c)
    }
}

/// `v` is the polygon of `n` vertices generated with these deviations from
/// these samples: one vertex for each index in `0..n - 1`.
pub open spec fn is_noisy_polygon(
    v: Seq<PolarVertex>,
    n: int,
    mean_rad: int,
    std_rad: int,
    std_phase: int,
    noise: Seq<VertexNoise>,
) -> bool {
    &&& v.len() == n - 1
    &&& forall|k: int|
        #![trigger v[k]]
        0 <= k < n - 1 ==> v[k].phase == phase_at(n, std_phase, noise, k) && v[k].radius
            == radius_of(mean_rad, std_rad, noise[k].radius as int)
}

/// Number of phase units in one turn for a polygon of `n_verts` vertices.
pub fn phase_denominator(n_verts: usize) -> (r: u128)
    ensures
        r == n_verts * TURN_SUBDIVISIONS,
{
    (n_verts as u128) * (TURN_SUBDIVISIONS as u128)
}

/// The candidate phase of any vertex, and each term of it, fits in an `i128`.
proof fn lemma_candidate_bounds(n: int, i: int, z: int, std_phase: int)
    requires
        0 <= i < n <= usize::MAX,
        i32::MIN <= z <= i32::MAX,
        0 <= std_phase <= u32::MAX,
    ensures
        0 <= i * TURN_SUBDIVISIONS <= 0xffff_ffff_ffff_fffe * TURN_SUBDIVISIONS,
        -0x7fff_ffff_8000_0000 * 0xffff_ffff_ffff_ffff <= (z * std_phase) * n
            <= 0x7fff_fffe_8000_0001 * 0xffff_ffff_ffff_ffff,
        -0x7fff_ffff_c000_0000_0000_0000_0000_0000 < candidate_phase(n, i, z, std_phase)
            < 0x7fff_ffff_c000_0000_0000_0000_0000_0000,
{
    assert(usize::MAX <= u64::MAX);
    assert(0 <= i * TURN_SUBDIVISIONS <= 0xffff_ffff_ffff_fffe * TURN_SUBDIVISIONS) by (nonlinear_arith)
        requires
            0 <= i <= 0xffff_ffff_ffff_fffe,
    ;
    lemma_sample_product_bounds(z, std_phase);
    let zs = z * std_phase;
    assert(-0x7fff_ffff_8000_0000 * 0xffff_ffff_ffff_ffff <= zs * n
        <= 0x7fff_fffe_8000_0001 * 0xffff_ffff_ffff_ffff) by (nonlinear_arith)
        requires
            -0x7fff_ffff_8000_0000 <= zs <= 0x7fff_fffe_8000_0001,
            0 <= n <= 0xffff_ffff_ffff_ffff,
    ;
    assert(z * std_phase * n == zs * n);
}

/// A sample times a phase deviation fits in an `i64`.
proof fn lemma_sample_product_bounds(z: int, std_phase: int)
    requires
        i32::MIN <= z <= i32::MAX,
        0 <= std_phase <= u32::MAX,
    ensures
        -0x7fff_ffff_8000_0000 <= z * std_phase <= 0x7fff_fffe_8000_0001,
{
    assert(-0x7fff_ffff_8000_0000 <= z * std_phase <= 0x7fff_fffe_8000_0001) by (nonlinear_arith)
        requires
            -0x8000_0000 <= z <= 0x7fff_ffff,
            0 <= std_phase <= 0xffff_ffff,
    ;
}

/// The phase of vertex `i` of `n`: the candidate phase, raised to `last_phase`
/// where it would fall below it.
pub fn jittered_phase(last_phase: i128, n_verts: usize, i: usize, z: i32, std_phase: u32) -> (r: i128)
    requires
        i < n_verts,
    ensures
        r == max_int(last_phase as int, candidate_phase(n_verts as int, i as int, z as int, std_phase as int)),
{
    proof {
        lemma_sample_product_bounds(z as int, std_phase as int);
        lemma_candidate_bounds(n_verts as int, i as int, z as int, std_phase as int);
    }
    let zs: i128 = (z as i128) * (std_phase as i128);
    assert(zs * n_verts == z * std_phase * n_verts);
    let c: i128 = (i as i128) * TURN_SUBDIVISIONS + zs * (n_verts as i128);
    if c >= last_phase {
        c
    } else {
        last_phase
    }
}

/// The radius of a vertex with mean `mean_rad`, deviation `std_rad` and
/// sample `z`, clamped at zero.
pub fn jittered_radius(mean_rad: i64, std_rad: u64, z: i32) -> (r: u128)
    ensures
        r == radius_of(mean_rad as int, std_rad as int, z as int),
{
    assert(-0x8000_0000_0000_0000_0000_0000 <= z * std_rad <= 0x8000_0000_0000_0000_0000_0000) by (nonlinear_arith)
        requires
            -0x8000_0000 <= z <= 0x7fff_ffff,
            0 <= std_rad <= 0xffff_ffff_ffff_ffff,
    ;
    assert(-0x8000_0000_0000_0000_0000 <= mean_rad * SAMPLE_SCALE <= 0x8000_0000_0000_0000_0000) by (nonlinear_arith)
        requires
            -0x8000_0000_0000_0000 <= mean_rad <= 0x7fff_ffff_ffff_ffff,
    ;
    let zs: i128 = (z as i128) * (std_rad as i128);
    let v: i128 = (mean_rad as i128) * (SAMPLE_SCALE as i128) + zs;
    if v < 0 {
        0
    } else {
        v as u128
    }
}

/// Generates the `n_verts - 1` vertices of a noisy circle of mean radius
/// `mean_rad`, vertex `i` drawing its two samples from `noise[i]`.
///
/// Vertex `i` starts at `i / n_verts` of a turn; its phase sample times
/// `std_phase` is added, and the result is raised to the previous vertex's
/// phase (to zero for the first), so that phases never decrease. Its radius
/// is `mean_rad` plus its radius sample times `std_rad`, clamped at zero.
pub fn rand_poly(
    n_verts: usize,
    mean_rad: i64,
    std_rad: u64,
    std_phase: u32,
    noise: &Vec<VertexNoise>,
) -> (r: Result<Vec<PolarVertex>, PolyError>)
    requires
        n_verts <= noise@.len() + 1,
    ensures
        r is Err <==> !valid_params(n_verts as int, mean_rad as int),
        r is Err ==> r == Err::<Vec<PolarVertex>, PolyError>(PolyError::InvalidParameter),
        r matches Ok(v) ==> is_noisy_polygon(
            v@,
            n_verts as int,
            mean_rad as int,
            std_rad as int,
            std_phase as int,
            noise@,
        ),
        r matches Ok(v) ==> forall|k: int|
            0 < k < v@.len() ==> #[trigger] v@[k].phase >= v@[k - 1].phase,
{
    if n_verts < 2 || mean_rad <= 0 {
        return Err(PolyError::InvalidParameter);
    }
    let mut out: Vec<PolarVertex> = Vec::new();
    let mut last_phase: i128 = 0;
    let mut i: usize = 0;
    while i < n_verts - 1
        invariant
            2 <= n_verts <= noise@.len() + 1,
            i <= n_verts - 1,
            out@.len() == i,
            i == 0 ==> last_phase == 0,
            i > 0 ==> last_phase == phase_at(n_verts as int, std_phase as int, noise@, i - 1),
            forall|k: int|
                #![trigger out@[k]]
                0 <= k < i ==> out@[k].phase == phase_at(
                    n_verts as int,
                    std_phase as int,
                    noise@,
                    k,
                ) && out@[k].radius == radius_of(
                    mean_rad as int,
                    std_rad as int,
                    noise@[k].radius as int,
                ),
        decreases n_verts - 1 - i,
    {
        let z = noise[i];
        let phase = jittered_phase(last_phase, n_verts, i, z.phase, std_phase);
        let radius = jittered_radius(mean_rad, std_rad, z.radius);
        out.push(PolarVertex { phase, radius });
        last_phase = phase;
        i = i + 1;
    }
    Ok(out)
}

} // verus!
