//! Spherical-harmonic colour coefficients and their layouts.

use vstd::prelude::*;

verus! {

/// Highest harmonic degree that a splat stores.
pub const SH_DEGREE: usize = 3;

/// Number of colour channels.
pub const SH_CHANNELS: usize = 3;

/// Coefficients of one channel for degree `SH_DEGREE`.
pub const SH_COEFF_COUNT_PER_CHANNEL: usize = 16;

/// Coefficients of one splat, all channels together.
pub const SH_COEFF_COUNT: usize = SH_COEFF_COUNT_PER_CHANNEL * SH_CHANNELS;

/// Number of basis functions up to and including `degree`: the bands
/// `0..=degree` hold `1, 3, 5, ...` functions each.
pub open spec fn sh_coefficient_count(degree: nat) -> nat
    decreases degree,
{
    if degree == 0 {
        1
    } else {
        2 * degree + 1 + sh_coefficient_count((degree - 1) as nat)
    }
}

/// The band sum has the closed form `(degree + 1)^2`.
pub proof fn lemma_sh_coefficient_count_square(degree: nat)
    ensures
        sh_coefficient_count(degree) == (degree + 1) * (degree + 1),
    decreases degree,
{
    if degree > 0 {
        let below = (degree - 1) as nat;
        lemma_sh_coefficient_count_square(below);
        assert(2 * degree + 1 + (below + 1) * (below + 1) == (degree + 1) * (degree + 1))
            by (nonlinear_arith)
            requires
                below + 1 == degree,
        ;
    } else {
        assert((degree + 1) * (degree + 1) == 1) by (nonlinear_arith)
            requires
                degree == 0,
        ;
    }
}

/// The per-channel constant is the band sum for `SH_DEGREE`.
pub proof fn lemma_sh_coeff_count_per_channel()
    ensures
        sh_coefficient_count(SH_DEGREE as nat) == SH_COEFF_COUNT_PER_CHANNEL,
        SH_COEFF_COUNT == 48,
{
    lemma_sh_coefficient_count_square(3);
    assert((3 + 1) * (3 + 1) == 16) by (nonlinear_arith);
}

/// Counts the basis functions up to and including `degree`.
pub fn num_sh_coefficients(degree: usize) -> (count: usize)
    requires
        (degree + 1) * (degree + 1) <= usize::MAX,
    ensures
        count == sh_coefficient_count(degree as nat),
{
    let mut count: usize = 1;
    let mut band: usize = 0;
    while band < degree
        invariant
            band <= degree,
            count == sh_coefficient_count(band as nat),
            (degree + 1) * (degree + 1) <= usize::MAX,
        decreases degree - band,
    {
        proof {
            lemma_sh_coefficient_count_square(band as nat);
            lemma_sh_coefficient_count_square((band + 1) as nat);
            assert((band + 2) * (band + 2) <= (degree + 1) * (degree + 1)) by (nonlinear_arith)
                requires
                    band < degree,
            ;
        }
        band = band + 1;
        count = count + (2 * band + 1);
    }
    count
}

/// The colour coefficients of one splat, `SH_COEFF_COUNT` bit patterns.
///
/// In the interleaved layout the slot `rank * SH_CHANNELS + channel` holds the
/// coefficient of basis function `rank` for colour channel `channel`.
#[derive(Clone, Copy, Debug, PartialEq, Eq)]
pub struct SphericalHarmonicCoefficients {
    pub coefficients: [u32; SH_COEFF_COUNT],
}

impl Default for SphericalHarmonicCoefficients {
    fn default() -> (r: Self)
        ensures
            forall|i: int| 0 <= i < SH_COEFF_COUNT ==> r.coefficients[i] == 0,
    {
        SphericalHarmonicCoefficients { coefficients: [0u32; SH_COEFF_COUNT] }
    }
}

/// Higher-term coefficients of one channel: all but the constant term.
pub const SH_REST_PER_CHANNEL: usize = SH_COEFF_COUNT_PER_CHANNEL - 1;

/// Where the channel-major layout keeps the coefficient of basis function
/// `rank` for `channel`: the constant terms come first, one per channel, then
/// the higher terms of channel 0, of channel 1, and so on.
pub open spec fn channel_major_slot(rank: int, channel: int) -> int {
    if rank == 0 {
        channel
    } else {
        SH_CHANNELS + channel * SH_REST_PER_CHANNEL + (rank - 1)
    }
}

/// Where the interleaved layout keeps the same coefficient.
pub open spec fn interleaved_slot(rank: int, channel: int) -> int {
    rank * SH_CHANNELS + channel
}

/// The interleaved layout of coefficients given channel-major.
pub open spec fn interleaved(channel_major: Seq<u32>) -> Seq<u32> {
    Seq::new(
        SH_COEFF_COUNT as nat,
        |slot: int|
            channel_major[channel_major_slot(slot / SH_CHANNELS as int, slot % SH_CHANNELS as int)],
    )
}

/// Every coefficient is found at its interleaved slot, and the two layouts
/// name the same 48 slots.
pub proof fn lemma_interleaved_slots(channel_major: Seq<u32>, rank: int, channel: int)
    requires
        0 <= rank < SH_COEFF_COUNT_PER_CHANNEL,
        0 <= channel < SH_CHANNELS,
    ensures
        0 <= interleaved_slot(rank, channel) < SH_COEFF_COUNT,
        0 <= channel_major_slot(rank, channel) < SH_COEFF_COUNT,
        interleaved(channel_major)[interleaved_slot(rank, channel)] == channel_major[channel_major_slot(
            rank,
            channel,
        )],
{
}

/// Interleaving moves every coefficient and loses none: two channel-major
/// inputs that interleave to the same sequence are the same.
pub proof fn lemma_interleaved_injective(a: Seq<u32>, b: Seq<u32>)
    requires
        a.len() == SH_COEFF_COUNT,
        b.len() == SH_COEFF_COUNT,
        interleaved(a) == interleaved(b),
    ensures
        a == b,
{
    assert forall|slot: int| 0 <= slot < 48 implies a[slot] == b[slot] by {
        let (rank, channel) = if slot < 3 {
            (0int, slot)
        } else {
            ((slot - 3) % 15 + 1, (slot - 3) / 15)
        };
        assert(channel_major_slot(rank, channel) == slot);
        lemma_interleaved_slots(a, rank, channel);
        lemma_interleaved_slots(b, rank, channel);
    }
    assert(a =~= b);
}

impl SphericalHarmonicCoefficients {
    /// Reorders coefficients that were read channel-major into the
    /// interleaved layout.
    pub fn interleave(&self) -> (out: Self)
        ensures
            out.coefficients@ == interleaved(self.coefficients@),
    {
        let mut coefficients = [0u32; SH_COEFF_COUNT];
        let mut slot: usize = 0;
        while slot < SH_COEFF_COUNT
            invariant
                slot <= SH_COEFF_COUNT,
                forall|s: int| 0 <= s < slot ==> coefficients@[s] == interleaved(self.coefficients@)[s],
            decreases SH_COEFF_COUNT - slot,
        {
            let rank = slot / SH_CHANNELS;
            let channel = slot % SH_CHANNELS;
            let source = if rank == 0 {
                channel
            } else {
                SH_CHANNELS + channel * SH_REST_PER_CHANNEL + (rank - 1)
            };
            coefficients[slot] = self.coefficients[source];
            slot = slot + 1;
        }
        proof {
            assert(coefficients@ =~= interleaved(self.coefficients@));
        }
        SphericalHarmonicCoefficients { coefficients }
    }
}

} // verus!
