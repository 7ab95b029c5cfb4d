//! The Monte Carlo combat-resolution estimator.
//!
//! One call evaluates a fixed weighted grid of 18 armor-quality samples
//! by 12 weapon-quality samples; each of the 216 combinations draws
//! fresh randomized body sizes and strength and is tried against 3
//! fixed contact-area fractions, 648 trials in all.  Each trial walks a
//! penetration decision tree and yields a value scaled so that a full
//! success is 100000; the average over all trials, rounded to the
//! nearest hundredth of a success and reported in tenths of a point,
//! is the score.
//!
//! Every physical comparison of the tree is a comparison of two
//! rational numbers.  Fixed-point scales: a quality multiplier is in
//! tenths; a body-size draw product in 10^-9 (three factors in
//! thousandths); a contact-area fraction in 10^-4; so a contact area is
//! carried over the denominator 10^13, and the original real-valued
//! comparisons become exact integer comparisons after cross-multiplying
//! by the (positive) denominators.  The wide products are compared by
//! `crate::wide::prod_geq`, so no comparison ever rounds.

use crate::records::Attack;
use crate::records::Material;
use crate::records::ScoreError;
use crate::records::Weapon;
use crate::sampler::draw_body_size;
use crate::sampler::draw_strength;
use crate::sampler::fresh_rng;
use crate::sampler::BODY_SIZE_CEIL;
use crate::sampler::BODY_SIZE_MIN;
use crate::wide::prod_geq;
use vstd::arithmetic::mul::lemma_mul_upper_bound;
use vstd::prelude::*;

verus! {

/// Trials per call: 18 armor samples x 12 weapon samples x 3 areas.
pub const TRIAL_COUNT: u64 = 648;

/// The armor-quality tier sampled at position `i` of the weighted
/// armor grid; the multiplicities 4,4,3,2,2,2,1 skew the sampling
/// toward common low tiers.
pub open spec fn armor_slot(i: int) -> int {
    if i < 4 {
        0
    } else if i < 8 {
        1
    } else if i < 11 {
        2
    } else if i < 13 {
        3
    } else if i < 15 {
        4
    } else if i < 17 {
        5
    } else {
        6
    }
}

/// The armor-quality multiplier of a tier, in tenths.
pub open spec fn armor_quality(slot: int) -> int {
    if slot <= 0 {
        10
    } else if slot == 1 {
        12
    } else if slot == 2 {
        14
    } else if slot == 3 {
        16
    } else if slot == 4 {
        18
    } else if slot == 5 {
        20
    } else {
        30
    }
}

/// The weapon-quality tier sampled at position `j` of the weighted
/// weapon grid; multiplicities 3,2,2,2,2,1.
pub open spec fn weapon_slot(j: int) -> int {
    if j < 3 {
        0
    } else if j < 5 {
        1
    } else if j < 7 {
        2
    } else if j < 9 {
        3
    } else if j < 11 {
        4
    } else {
        5
    }
}

/// The weapon-quality multiplier of a tier, in tenths.
pub open spec fn weapon_quality(slot: int) -> int {
    if slot <= 0 {
        5
    } else if slot == 1 {
        6
    } else if slot == 2 {
        7
    } else if slot == 3 {
        8
    } else if slot == 4 {
        9
    } else {
        10
    }
}

/// The three contact-area fractions (greaves, breastplate, helmet) in
/// units of 10^-4.
pub open spec fn contact_fraction(k: int) -> int {
    if k <= 0 {
        480
    } else if k == 1 {
        360
    } else {
        162
    }
}

fn armor_quality_at(i: u64) -> (r: u64)
    requires
        i < 18,
    ensures
        r == armor_quality(armor_slot(i as int)),
        10 <= r <= 30,
{
    if i < 4 {
        10
    } else if i < 8 {
        12
    } else if i < 11 {
        14
    } else if i < 13 {
        16
    } else if i < 15 {
        18
    } else if i < 17 {
        20
    } else {
        30
    }
}

fn weapon_quality_at(j: u64) -> (r: u64)
    requires
        j < 12,
    ensures
        r == weapon_quality(weapon_slot(j as int)),
        5 <= r <= 10,
{
    if j < 3 {
        5
    } else if j < 5 {
        6
    } else if j < 7 {
        7
    } else if j < 9 {
        8
    } else if j < 11 {
        9
    } else {
        10
    }
}

fn contact_fraction_at(k: u64) -> (r: u64)
    requires
        k < 3,
    ensures
        r == contact_fraction(k as int),
        1 <= r <= 480,
{
    if k == 0 {
        480
    } else if k == 1 {
        360
    } else {
        162
    }
}

/// Numerator of the trial momentum
/// `60000 * strength * velocity / (10^6 * (1 + size / weapon_weight))`
/// over the denominator `momentum_den`: both sides were multiplied by
/// `weapon_weight * 10^9`, the size draw being scaled by 10^-9.  The
/// numerator keeps the nominal 60000 body size; the randomized own-size
/// draw deepens only the denominator — preserved observed behavior, not
/// a correction.
pub open spec fn momentum_num(strength: int, velocity: int, weapon_weight: int) -> int {
    60000 * strength * velocity * weapon_weight * 1_000_000_000
}

/// Denominator of the trial momentum.
pub open spec fn momentum_den(weapon_weight: int, size_num: int) -> int {
    1_000_000 * (weapon_weight * 1_000_000_000 + size_num)
}

/// The trial's contact area over the denominator 10^13: the
/// attacker's ceiling capped by the enemy's body share.
pub open spec fn area_num(area: int, enemy_size_num: int, contact: int) -> int {
    if area * 10_000_000_000_000 <= enemy_size_num * contact {
        area * 10_000_000_000_000
    } else {
        enemy_size_num * contact
    }
}

/// Denominator of the edged cut threshold
/// `rSY + (area + 1) * rSF * ((10 + 2*Qa) / (Qw * sharpness))`
/// after cross-multiplying: the weapon's shear yield and fracture, the
/// weapon quality in tenths, the weapon material's edge ceiling (whose
/// 10^-4 sharpness scale cancels against the quality scales), and the
/// area denominator.
pub open spec fn cut_den(
    shear_yield_w: int,
    shear_fracture_w: int,
    qw: int,
    max_edge_w: int,
) -> int {
    shear_yield_w * shear_fracture_w * qw * max_edge_w * 10_000_000_000_000
}

/// Numerator of the edged cut threshold over `cut_den`.
pub open spec fn cut_num(
    amat: Material,
    wmat: Material,
    qa: int,
    qw: int,
    a_num: int,
) -> int {
    amat.shear_yield * wmat.shear_fracture * qw * wmat.max_edge * 10_000_000_000_000
        + wmat.shear_yield * (a_num + 10_000_000_000_000) * amat.shear_fracture * (100 + 2 * qa)
        * 10000
}

/// The edged attack cuts through: momentum at least the shear
/// threshold, as an exact cross-multiplied comparison.
pub open spec fn cut_passes(
    attack: Attack,
    wmat: Material,
    amat: Material,
    weapon_weight: int,
    qa: int,
    qw: int,
    size_num: int,
    strength: int,
    a_num: int,
) -> bool {
    momentum_num(strength, attack.velocity as int, weapon_weight) * cut_den(
        wmat.shear_yield as int,
        wmat.shear_fracture as int,
        qw,
        wmat.max_edge as int,
    ) >= cut_num(amat, wmat, qa, qw, a_num) * momentum_den(weapon_weight, size_num)
}

/// The weapon cannot even dent the plate:
/// `2 * weapon_size * impactYield_w / 1000 >= area * solidDensity_a`,
/// cross-multiplied by `1000 * 10^13`.
pub open spec fn dent_blocked(
    weapon_size: int,
    impact_yield_w: int,
    a_num: int,
    solid_density_a: int,
) -> bool {
    2 * weapon_size * impact_yield_w * 10_000_000_000_000 >= a_num * solid_density_a * 1000
}

/// The plate fractures under the blow:
/// `momentum >= (2*impactFracture_a - impactYield_a)/10^6 * (2 + 0.4*Qa) * area`,
/// cross-multiplied; `10^21` is `10^6 * 100 * 10^13`, the scales of
/// the yield terms, the quality factor in hundredths and the area.
pub open spec fn fracture_passes(
    amat: Material,
    weapon_weight: int,
    qa: int,
    size_num: int,
    strength: int,
    velocity: int,
    a_num: int,
) -> bool {
    momentum_num(strength, velocity, weapon_weight) * 1_000_000_000_000_000_000_000 >= (2
        * amat.impact_fracture - amat.impact_yield) * (200 + 4 * qa) * a_num * momentum_den(
        weapon_weight,
        size_num,
    )
}

/// The value of one trial, scaled by 100000 per full success: the
/// penetration decision tree on the given quality multipliers (tenths)
/// and randomized draws.  An edged attack first tries to cut; failing
/// that, every attack is evaluated as blunt force: a weapon too weak to
/// dent scores nothing, a fracturing blow scores fully (discounted to
/// 95% after a failed cut), and anything else leaves residual bruising
/// worth `strain / 50000` of a success.
pub open spec fn trial_value(
    attack: Attack,
    wmat: Material,
    amat: Material,
    weapon_size: int,
    qa: int,
    qw: int,
    size_num: int,
    enemy_size_num: int,
    strength: int,
    contact: int,
) -> int {
    let ww = weapon_size * wmat.solid_density;
    let a_num = area_num(attack.area as int, enemy_size_num, contact);
    if attack.edged && cut_passes(attack, wmat, amat, ww, qa, qw, size_num, strength, a_num) {
        100_000
    } else if dent_blocked(weapon_size, wmat.impact_yield as int, a_num, amat.solid_density as int) {
        0
    } else if fracture_passes(amat, ww, qa, size_num, strength, attack.velocity as int, a_num) {
        if attack.edged {
            95_000
        } else {
            100_000
        }
    } else if attack.edged {
        2 * amat.shear_strain_at_yield
    } else {
        2 * amat.impact_strain_at_yield
    }
}

/// The values a single trial can take.  The discounted 95% credit only
/// arises for an edged attack whose cut attempt failed.
pub open spec fn admissible_trial(v: int, attack: Attack, amat: Material) -> bool {
    ||| v == 0
    ||| (attack.edged && v == 95_000)
    ||| v == 100_000
    ||| (attack.edged && v == 2 * amat.shear_strain_at_yield)
    ||| (!attack.edged && v == 2 * amat.impact_strain_at_yield)
}

/// A negative fracture threshold is always met: the momentum side is a
/// product of nonnegative factors.
proof fn lemma_fracture_trivial(mnum: int, neg: int, w: int, a_num: int, mden: int)
    by (nonlinear_arith)
    requires
        mnum >= 0,
        neg < 0,
        w > 0,
        a_num >= 0,
        mden > 0,
    ensures
        mnum * 1_000_000_000_000_000_000_000 >= neg * w * a_num * mden,
{
}

/// Evaluates one trial of the decision tree exactly.
#[verifier::loop_isolation(false)]
pub fn trial_score(
    attack: &Attack,
    weapon_mat: &Material,
    armor_mat: &Material,
    weapon: &Weapon,
    qa: u64,
    qw: u64,
    size_num: u64,
    enemy_size_num: u64,
    strength: u64,
    contact: u64,
) -> (r: u64)
    requires
        attack.valid(),
        weapon_mat.valid(),
        armor_mat.valid(),
        weapon.valid(),
        weapon.size * weapon_mat.solid_density >= 1,
        10 <= qa <= 30,
        5 <= qw <= 10,
        BODY_SIZE_MIN <= size_num < BODY_SIZE_CEIL,
        BODY_SIZE_MIN <= enemy_size_num < BODY_SIZE_CEIL,
        450 <= strength < 2250,
        1 <= contact <= 480,
    ensures
        r == trial_value(
            *attack,
            *weapon_mat,
            *armor_mat,
            weapon.size as int,
            qa as int,
            qw as int,
            size_num as int,
            enemy_size_num as int,
            strength as int,
            contact as int,
        ),
        r <= 100_000,
{
    proof {
        lemma_mul_upper_bound(
            weapon.size as int,
            10_000_000,
            weapon_mat.solid_density as int,
            10_000_000,
        );
    }
    let ww: u64 = weapon.size * weapon_mat.solid_density;
    // momentum numerator: at most 1.35e8 * 1e7 * 1e14 * 1e9 < 1.35e38
    let m1: u128 = 60000 * (strength as u128);
    proof {
        lemma_mul_upper_bound(m1 as int, 135_000_000, attack.velocity as int, 10_000_000);
    }
    let m2: u128 = m1 * (attack.velocity as u128);
    proof {
        lemma_mul_upper_bound(m2 as int, 1_350_000_000_000_000, ww as int, 100_000_000_000_000);
    }
    let m3: u128 = m2 * (ww as u128);
    let mnum: u128 = m3 * 1_000_000_000;
    // momentum denominator: at most 1e6 * (1e23 + 8e13)
    let mden: u128 = 1_000_000 * ((ww as u128) * 1_000_000_000 + (size_num as u128));
    // contact area over its 10^13 denominator
    let area_left: u128 = (attack.area as u128) * 10_000_000_000_000;
    proof {
        lemma_mul_upper_bound(enemy_size_num as int, 79_860_000_000_000, contact as int, 480);
    }
    let area_right: u128 = (enemy_size_num as u128) * (contact as u128);
    let a_num: u128 = if area_left <= area_right {
        area_left
    } else {
        area_right
    };
    proof {
        assert(a_num as int == area_num(attack.area as int, enemy_size_num as int, contact as int));
        assert(a_num <= 38_332_800_000_000_000);
    }
    if attack.edged {
        // threshold denominator: at most 1e7 * 1e7 * 10 * 1e7 * 1e13 = 1e35
        proof {
            lemma_mul_upper_bound(
                weapon_mat.shear_yield as int,
                10_000_000,
                weapon_mat.shear_fracture as int,
                10_000_000,
            );
        }
        let c1: u128 = (weapon_mat.shear_yield as u128) * (weapon_mat.shear_fracture as u128);
        proof {
            lemma_mul_upper_bound(c1 as int, 100_000_000_000_000, qw as int, 10);
        }
        let c2: u128 = c1 * (qw as u128);
        proof {
            lemma_mul_upper_bound(
                c2 as int,
                1_000_000_000_000_000,
                weapon_mat.max_edge as int,
                10_000_000,
            );
        }
        let c3: u128 = c2 * (weapon_mat.max_edge as u128);
        let cden: u128 = c3 * 10_000_000_000_000;
        // threshold numerator, first term: same bound as the denominator
        proof {
            lemma_mul_upper_bound(
                armor_mat.shear_yield as int,
                10_000_000,
                weapon_mat.shear_fracture as int,
                10_000_000,
            );
        }
        let t1a: u128 = (armor_mat.shear_yield as u128) * (weapon_mat.shear_fracture as u128);
        proof {
            lemma_mul_upper_bound(t1a as int, 100_000_000_000_000, qw as int, 10);
        }
        let t1b: u128 = t1a * (qw as u128);
        proof {
            lemma_mul_upper_bound(
                t1b as int,
                1_000_000_000_000_000,
                weapon_mat.max_edge as int,
                10_000_000,
            );
        }
        let t1c: u128 = t1b * (weapon_mat.max_edge as u128);
        let t1: u128 = t1c * 10_000_000_000_000;
        // second term: at most 1e7 * 4e16 * 1e7 * 160 * 1e4 < 6.5e36
        proof {
            lemma_mul_upper_bound(
                weapon_mat.shear_yield as int,
                10_000_000,
                a_num as int + 10_000_000_000_000,
                38_342_800_000_000_000,
            );
        }
        let s1: u128 = (weapon_mat.shear_yield as u128) * (a_num + 10_000_000_000_000);
        proof {
            lemma_mul_upper_bound(
                s1 as int,
                383_428_000_000_000_000_000_000,
                armor_mat.shear_fracture as int,
                10_000_000,
            );
        }
        let s2: u128 = s1 * (armor_mat.shear_fracture as u128);
        proof {
            lemma_mul_upper_bound(
                s2 as int,
                3_834_280_000_000_000_000_000_000_000_000,
                100 + 2 * qa as int,
                160,
            );
        }
        let s3: u128 = s2 * ((100 + 2 * qa) as u128);
        let t2: u128 = s3 * 10_000;
        let cnum: u128 = t1 + t2;
        if prod_geq(mnum, cden, cnum, mden) {
            return 100_000;
        }
    }
    // blunt-force dent check: at most 2e7 * 1e7 * 1e13 = 2e27
    proof {
        lemma_mul_upper_bound(
            2 * weapon.size as int,
            20_000_000,
            weapon_mat.impact_yield as int,
            10_000_000,
        );
    }
    let d1: u128 = (2 * (weapon.size as u128)) * (weapon_mat.impact_yield as u128);
    let dent_left: u128 = d1 * 10_000_000_000_000;
    proof {
        lemma_mul_upper_bound(
            a_num as int,
            38_332_800_000_000_000,
            armor_mat.solid_density as int,
            10_000_000,
        );
    }
    let d2: u128 = a_num * (armor_mat.solid_density as u128);
    let dent_right: u128 = d2 * 1000;
    if dent_left >= dent_right {
        return 0;
    }
    // fracture check
    let fracture: bool;
    if 2 * armor_mat.impact_fracture < armor_mat.impact_yield {
        proof {
            lemma_fracture_trivial(
                mnum as int,
                2 * armor_mat.impact_fracture as int - armor_mat.impact_yield as int,
                200 + 4 * qa as int,
                a_num as int,
                mden as int,
            );
        }
        fracture = true;
    } else {
        let pos: u128 = ((2 * armor_mat.impact_fracture - armor_mat.impact_yield) as u128);
        proof {
            lemma_mul_upper_bound(pos as int, 20_000_000, 200 + 4 * qa as int, 320);
        }
        let f1: u128 = pos * ((200 + 4 * qa) as u128);
        proof {
            lemma_mul_upper_bound(f1 as int, 6_400_000_000, a_num as int, 38_332_800_000_000_000);
        }
        let f2: u128 = f1 * a_num;
        fracture = prod_geq(mnum, 1_000_000_000_000_000_000_000, f2, mden);
    }
    if fracture {
        if attack.edged {
            95_000
        } else {
            100_000
        }
    } else if attack.edged {
        2 * armor_mat.shear_strain_at_yield
    } else {
        2 * armor_mat.impact_strain_at_yield
    }
}

/// A trial can only take one of its five admissible values.
proof fn lemma_trial_admissible(
    attack: Attack,
    wmat: Material,
    amat: Material,
    weapon_size: int,
    qa: int,
    qw: int,
    size_num: int,
    enemy_size_num: int,
    strength: int,
    contact: int,
)
    ensures
        admissible_trial(
            trial_value(
                attack,
                wmat,
                amat,
                weapon_size,
                qa,
                qw,
                size_num,
                enemy_size_num,
                strength,
                contact,
            ),
            attack,
            amat,
        ),
{
}

/// A blunt attack with a zero contact-area ceiling scores nothing: its
/// area is zero, so the weapon cannot dent the plate.
proof fn lemma_trial_blunt_zero_area(
    attack: Attack,
    wmat: Material,
    amat: Material,
    weapon_size: int,
    qa: int,
    qw: int,
    size_num: int,
    enemy_size_num: int,
    strength: int,
    contact: int,
)
    requires
        !attack.edged,
        attack.area == 0,
        weapon_size >= 0,
        enemy_size_num >= 0,
        contact >= 0,
    ensures
        trial_value(
            attack,
            wmat,
            amat,
            weapon_size,
            qa,
            qw,
            size_num,
            enemy_size_num,
            strength,
            contact,
        ) == 0,
{
    assert(enemy_size_num * contact >= 0) by (nonlinear_arith)
        requires
            enemy_size_num >= 0,
            contact >= 0,
    ;
    assert(area_num(attack.area as int, enemy_size_num, contact) == 0);
    assert(2 * weapon_size * wmat.impact_yield * 10_000_000_000_000 >= 0) by (nonlinear_arith)
        requires
            weapon_size >= 0,
            wmat.impact_yield >= 0,
    ;
    assert(dent_blocked(weapon_size, wmat.impact_yield as int, 0, amat.solid_density as int));
}

/// Monotonicity in strike velocity: against the same draws, qualities
/// and records, a faster strike of the same shape never scores less in
/// a trial.  The armor's strain fields must stay at or below 47500 —
/// that keeps the bruising partial credit at or below the discounted
/// fracture credit, for above that a trial whose added momentum turns
/// the fracture check true can drop from the bruising credit to the
/// discounted 95% value.
pub proof fn lemma_trial_velocity_monotone(
    slow: Attack,
    fast: Attack,
    wmat: Material,
    amat: Material,
    weapon_size: int,
    qa: int,
    qw: int,
    size_num: int,
    enemy_size_num: int,
    strength: int,
    contact: int,
)
    requires
        slow.edged == fast.edged,
        slow.area == fast.area,
        slow.velocity <= fast.velocity,
        amat.shear_strain_at_yield <= 47_500,
        amat.impact_strain_at_yield <= 47_500,
        weapon_size >= 0,
        strength >= 0,
        qw >= 0,
    ensures
        trial_value(
            slow,
            wmat,
            amat,
            weapon_size,
            qa,
            qw,
            size_num,
            enemy_size_num,
            strength,
            contact,
        ) <= trial_value(
            fast,
            wmat,
            amat,
            weapon_size,
            qa,
            qw,
            size_num,
            enemy_size_num,
            strength,
            contact,
        ),
{
    let ww = weapon_size * wmat.solid_density;
    vstd::arithmetic::mul::lemma_mul_nonnegative(weapon_size, wmat.solid_density as int);
    let vs = slow.velocity as int;
    let vf = fast.velocity as int;
    let mnum_s = momentum_num(strength, vs, ww);
    let mnum_f = momentum_num(strength, vf, ww);
    let mden = momentum_den(ww, size_num);
    assert(60000 * strength * vs * ww * 1_000_000_000 <= 60000 * strength * vf * ww
        * 1_000_000_000) by (nonlinear_arith)
        requires
            0 <= vs <= vf,
            strength >= 0,
            ww >= 0,
    ;
    let a_num = area_num(slow.area as int, enemy_size_num, contact);
    let cd = cut_den(wmat.shear_yield as int, wmat.shear_fracture as int, qw, wmat.max_edge as int);
    assert((wmat.shear_yield as int) * (wmat.shear_fracture as int) * qw * (wmat.max_edge as int)
        * 10_000_000_000_000 >= 0) by (nonlinear_arith)
        requires
            wmat.shear_yield >= 0,
            wmat.shear_fracture >= 0,
            qw >= 0,
            wmat.max_edge >= 0,
    ;
    assert(cd >= 0);
    let cn = cut_num(amat, wmat, qa, qw, a_num);
    if slow.edged && cut_passes(slow, wmat, amat, ww, qa, qw, size_num, strength, a_num) {
        vstd::arithmetic::mul::lemma_mul_inequality(mnum_s, mnum_f, cd);
        assert(cut_passes(fast, wmat, amat, ww, qa, qw, size_num, strength, a_num));
    }
    if fracture_passes(amat, ww, qa, size_num, strength, vs, a_num) {
        vstd::arithmetic::mul::lemma_mul_inequality(mnum_s, mnum_f, 1_000_000_000_000_000_000_000);
        assert(fracture_passes(amat, ww, qa, size_num, strength, vf, a_num));
    }
    lemma_trial_admissible(
        slow,
        wmat,
        amat,
        weapon_size,
        qa,
        qw,
        size_num,
        enemy_size_num,
        strength,
        contact,
    );
}

/// The final score in tenths of a point: the trial average over
/// `TRIAL_COUNT`, times 100, rounded half away from zero — as one
/// integer division of the scaled trial sum.
pub open spec fn score_tenths(sum: int) -> int {
    (sum + 324_000) / 648_000
}

/// The estimator cannot run: one of the formulas' divisors — the weapon
/// material's shear yield or shear fracture, its edge ceiling, or the
/// weapon's weight — is zero.
pub open spec fn divisor_fails(wmat: Material, weapon: Weapon) -> bool {
    ||| wmat.shear_yield == 0
    ||| wmat.shear_fracture == 0
    ||| wmat.max_edge == 0
    ||| weapon.size * wmat.solid_density == 0
}

/// One quality combination's randomized draws: own body size, enemy
/// body size (both over the 10^-9 scale), and strength — each inside
/// the ranges the bucketed samplers can produce.
pub open spec fn draw_ok(d: (int, int, int)) -> bool {
    &&& BODY_SIZE_MIN <= d.0 < BODY_SIZE_CEIL
    &&& BODY_SIZE_MIN <= d.1 < BODY_SIZE_CEIL
    &&& 450 <= d.2 < 2250
}

/// A full call's worth of draws: one in-range triple for each of the
/// 18 x 12 quality combinations.
pub open spec fn draws_ok(d: Seq<(int, int, int)>) -> bool {
    &&& d.len() == 216
    &&& forall|x: int| 0 <= x < d.len() ==> draw_ok(#[trigger] d[x])
}

/// The value of trial `t` (0-based) of a call: trials are ordered
/// armor-major, then weapon quality, then contact area, and trial `t`
/// uses the draw triple of its quality combination, `d[t / 3]`.
pub open spec fn grid_trial_value(
    attack: Attack,
    wmat: Material,
    amat: Material,
    weapon: Weapon,
    d: Seq<(int, int, int)>,
    t: int,
) -> int {
    trial_value(
        attack,
        wmat,
        amat,
        weapon.size as int,
        armor_quality(armor_slot(t / 36)),
        weapon_quality(weapon_slot((t / 3) % 12)),
        d[t / 3].0,
        d[t / 3].1,
        d[t / 3].2,
        contact_fraction(t % 3),
    )
}

/// The sum of the first `n` trial values of a call on the draws `d`.
pub open spec fn grid_sum(
    attack: Attack,
    wmat: Material,
    amat: Material,
    weapon: Weapon,
    d: Seq<(int, int, int)>,
    n: int,
) -> int
    decreases n,
{
    if n <= 0 {
        0
    } else {
        grid_sum(attack, wmat, amat, weapon, d, n - 1) + grid_trial_value(
            attack,
            wmat,
            amat,
            weapon,
            d,
            n - 1,
        )
    }
}

/// Trials only read the draws of quality combinations already listed,
/// so extending the draw sequence does not change a prefix sum.
proof fn lemma_grid_sum_push(
    attack: Attack,
    wmat: Material,
    amat: Material,
    weapon: Weapon,
    d: Seq<(int, int, int)>,
    x: (int, int, int),
    n: int,
)
    requires
        0 <= n <= 3 * d.len(),
    ensures
        grid_sum(attack, wmat, amat, weapon, d.push(x), n) == grid_sum(
            attack,
            wmat,
            amat,
            weapon,
            d,
            n,
        ),
    decreases n,
{
    if n > 0 {
        lemma_grid_sum_push(attack, wmat, amat, weapon, d, x, n - 1);
        assert(0 <= (n - 1) / 3 < d.len());
        assert(d.push(x)[(n - 1) / 3] == d[(n - 1) / 3]);
    }
}

/// Estimates how effective the attack is against armor of the given
/// material, averaged over the weighted quality grid and randomized
/// body-size/strength trials; the score is returned in tenths of a
/// point (0 ..= 100, standing for 0.0 ..= 10.0).
///
/// The result is randomized, but only through the draws: every success
/// is the rounded average of exactly `TRIAL_COUNT` values of the
/// decision tree `trial_value`, taken over the fixed weighted quality
/// grid with some in-range draw triple per quality combination; the
/// error cases are pinned exactly; a blunt attack with a zero area
/// ceiling always scores 0.
#[verifier::loop_isolation(false)]
pub fn attack_score(
    attack: &Attack,
    weapon_mat: &Material,
    armor_mat: &Material,
    weapon: &Weapon,
) -> (r: Result<u32, ScoreError>)
    requires
        attack.valid(),
        weapon_mat.valid(),
        armor_mat.valid(),
        weapon.valid(),
    ensures
        r is Err <==> divisor_fails(*weapon_mat, *weapon),
        r is Err ==> r == Err::<u32, ScoreError>(ScoreError::ArithmeticFailure),
        r matches Ok(t) ==> t <= 100,
        r matches Ok(t) ==> exists|d: Seq<(int, int, int)>|
            #[trigger] draws_ok(d) && t as int == score_tenths(
                grid_sum(*attack, *weapon_mat, *armor_mat, *weapon, d, TRIAL_COUNT as int),
            ),
        !attack.edged && attack.area == 0 && r is Ok ==> r == Ok::<u32, ScoreError>(0u32),
{
    if weapon_mat.shear_yield == 0 || weapon_mat.shear_fracture == 0 || weapon_mat.max_edge == 0 {
        return Err(ScoreError::ArithmeticFailure);
    }
    proof {
        lemma_mul_upper_bound(
            weapon.size as int,
            10_000_000,
            weapon_mat.solid_density as int,
            10_000_000,
        );
    }
    let ww: u64 = weapon.size * weapon_mat.solid_density;
    if ww == 0 {
        return Err(ScoreError::ArithmeticFailure);
    }
    let mut rng = fresh_rng();
    let mut sum: u64 = 0;
    let ghost mut draws: Seq<(int, int, int)> = Seq::empty();
    let mut i: u64 = 0;
    while i < 18
        invariant
            i <= 18,
            draws.len() == 12 * i,
            forall|x: int| 0 <= x < draws.len() ==> draw_ok(#[trigger] draws[x]),
            sum as int == grid_sum(
                *attack,
                *weapon_mat,
                *armor_mat,
                *weapon,
                draws,
                36 * i as int,
            ),
            sum as int <= 3_600_000 * i,
            (!attack.edged && attack.area == 0) ==> sum == 0,
        decreases 18 - i,
    {
        let qa = armor_quality_at(i);
        let mut j: u64 = 0;
        while j < 12
            invariant
                i < 18,
                j <= 12,
                10 <= qa <= 30,
                qa == armor_quality(armor_slot(i as int)),
                draws.len() == 12 * i + j,
                forall|x: int| 0 <= x < draws.len() ==> draw_ok(#[trigger] draws[x]),
                sum as int == grid_sum(
                    *attack,
                    *weapon_mat,
                    *armor_mat,
                    *weapon,
                    draws,
                    36 * i as int + 3 * j as int,
                ),
                sum as int <= 3_600_000 * i + 300_000 * j,
                (!attack.edged && attack.area == 0) ==> sum == 0,
            decreases 12 - j,
        {
            let qw = weapon_quality_at(j);
            let size_num = draw_body_size(&mut rng);
            let enemy_size_num = draw_body_size(&mut rng);
            let strength = draw_strength(&mut rng);
            proof {
                lemma_grid_sum_push(
                    *attack,
                    *weapon_mat,
                    *armor_mat,
                    *weapon,
                    draws,
                    (size_num as int, enemy_size_num as int, strength as int),
                    36 * i as int + 3 * j as int,
                );
                draws = draws.push((size_num as int, enemy_size_num as int, strength as int));
            }
            let mut k: u64 = 0;
            while k < 3
                invariant
                    i < 18,
                    j < 12,
                    k <= 3,
                    10 <= qa <= 30,
                    5 <= qw <= 10,
                    qa == armor_quality(armor_slot(i as int)),
                    qw == weapon_quality(weapon_slot(j as int)),
                    BODY_SIZE_MIN <= size_num < BODY_SIZE_CEIL,
                    BODY_SIZE_MIN <= enemy_size_num < BODY_SIZE_CEIL,
                    450 <= strength < 2250,
                    draws.len() == 12 * i + j + 1,
                    draws.last() == (size_num as int, enemy_size_num as int, strength as int),
                    forall|x: int| 0 <= x < draws.len() ==> draw_ok(#[trigger] draws[x]),
                    sum as int == grid_sum(
                        *attack,
                        *weapon_mat,
                        *armor_mat,
                        *weapon,
                        draws,
                        36 * i as int + 3 * j as int + k as int,
                    ),
                    sum as int <= 3_600_000 * i + 300_000 * j + 100_000 * k,
                    (!attack.edged && attack.area == 0) ==> sum == 0,
                decreases 3 - k,
            {
                let contact = contact_fraction_at(k);
                let t = trial_score(
                    attack,
                    weapon_mat,
                    armor_mat,
                    weapon,
                    qa,
                    qw,
                    size_num,
                    enemy_size_num,
                    strength,
                    contact,
                );
                proof {
                    let n = 36 * i as int + 3 * j as int + k as int;
                    assert(n / 36 == i as int && n / 3 == 12 * i as int + j as int && n % 3
                        == k as int) by (nonlinear_arith)
                        requires
                            n == 36 * (i as int) + 3 * (j as int) + (k as int),
                            0 <= (i as int) && (i as int) < 18,
                            0 <= (j as int) && (j as int) < 12,
                            0 <= (k as int) && (k as int) < 3,
                    ;
                    assert((n / 3) % 12 == j as int) by (nonlinear_arith)
                        requires
                            n / 3 == 12 * (i as int) + (j as int),
                            0 <= (i as int),
                            0 <= (j as int) && (j as int) < 12,
                    ;
                    assert(draws[n / 3] == (
                        size_num as int,
                        enemy_size_num as int,
                        strength as int,
                    ));
                    assert(t as int == grid_trial_value(
                        *attack,
                        *weapon_mat,
                        *armor_mat,
                        *weapon,
                        draws,
                        n,
                    ));
                    if !attack.edged && attack.area == 0 {
                        lemma_trial_blunt_zero_area(
                            *attack,
                            *weapon_mat,
                            *armor_mat,
                            weapon.size as int,
                            qa as int,
                            qw as int,
                            size_num as int,
                            enemy_size_num as int,
                            strength as int,
                            contact as int,
                        );
                    }
                }
                sum = sum + t;
                k = k + 1;
            }
            j = j + 1;
        }
        i = i + 1;
    }
    let tenths_wide: u64 = (sum + 324_000) / 648_000;
    proof {
        assert(draws_ok(draws));
        assert(sum <= 64_800_000);
        assert(tenths_wide <= 100);
    }
    let tenths: u32 = tenths_wide as u32;
    proof {
        assert(tenths as int == score_tenths(
            grid_sum(*attack, *weapon_mat, *armor_mat, *weapon, draws, TRIAL_COUNT as int),
        ));
    }
    Ok(tenths)
}

} // verus!
