use vstd::prelude::*;

use crate::polygon::{
    candidate_phase, is_noisy_polygon, phase_at, valid_params, PolarVertex, VertexNoise,
    SAMPLE_SCALE, TURN_SUBDIVISIONS,
};

verus! {

/// Phases never decrease along a generated polygon: a vertex's phase is at
/// most the phase of every vertex after it.
pub proof fn lemma_phases_ordered(
    v: Seq<PolarVertex>,
    n: int,
    mean_rad: int,
    std_rad: int,
    std_phase: int,
    noise: Seq<VertexNoise>,
    j: int,
    k: int,
)
    requires
        is_noisy_polygon(v, n, mean_rad, std_rad, std_phase, noise),
        0 <= j <= k < v.len(),
    ensures
        v[j].phase <= v[k].phase,
    decreases k - j,
{
    if j < k {
        lemma_phases_ordered(v, n, mean_rad, std_rad, std_phase, noise, j, k - 1);
        assert(phase_at(n, std_phase, noise, k - 1) <= phase_at(n, std_phase, noise, k));
    }
}

/// Without phase deviation, vertex `k` sits at exactly `k / n` of a turn.
proof fn lemma_phase_at_without_jitter(n: int, noise: Seq<VertexNoise>, k: int)
    requires
        0 <= k,
    ensures
        phase_at(n, 0, noise, k) == k * TURN_SUBDIVISIONS,
    decreases k,
{
    let z = noise[k].phase as int;
    assert(z * 0 * n == 0) by (nonlinear_arith);
    assert(candidate_phase(n, k, z, 0) == k * TURN_SUBDIVISIONS);
    if k > 0 {
        lemma_phase_at_without_jitter(n, noise, k - 1);
    }
}

/// With a phase deviation of zero the polygon is regular in angle: vertex `k`
/// of `n` lies at exactly `k / n` of a turn, whatever the samples.
pub proof fn lemma_no_phase_jitter(
    v: Seq<PolarVertex>,
    n: int,
    mean_rad: int,
    std_rad: int,
    noise: Seq<VertexNoise>,
)
    requires
        is_noisy_polygon(v, n, mean_rad, std_rad, 0, noise),
    ensures
        forall|k: int| 0 <= k < v.len() ==> #[trigger] v[k].phase == k * TURN_SUBDIVISIONS,
{
    assert forall|k: int| 0 <= k < v.len() implies #[trigger] v[k].phase == k
        * TURN_SUBDIVISIONS by {
        lemma_phase_at_without_jitter(n, noise, k);
    }
}

/// With a radius deviation of zero every vertex lies at exactly the mean
/// radius from the origin, whatever the samples.
pub proof fn lemma_no_radius_jitter(
    v: Seq<PolarVertex>,
    n: int,
    mean_rad: int,
    std_phase: int,
    noise: Seq<VertexNoise>,
)
    requires
        valid_params(n, mean_rad),
        is_noisy_polygon(v, n, mean_rad, 0, std_phase, noise),
    ensures
        forall|k: int| 0 <= k < v.len() ==> #[trigger] v[k].radius == mean_rad * SAMPLE_SCALE,
{
    assert forall|k: int| 0 <= k < v.len() implies #[trigger] v[k].radius == mean_rad
        * SAMPLE_SCALE by {
        let z = noise[k].radius as int;
        assert(z * 0 == 0);
    }
}

} // verus!
