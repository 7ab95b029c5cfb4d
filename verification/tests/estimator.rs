use armory::records::Attack;
use armory::records::Material;
use armory::records::ScoreError;
use armory::records::Weapon;
use armory::score::attack_score;
use armory::score::trial_score;

fn iron() -> Material {
    Material {
        name: String::from("iron"),
        solid_density: 7850,
        impact_yield: 542500,
        impact_fracture: 1085000,
        impact_strain_at_yield: 319,
        shear_yield: 155000,
        shear_fracture: 155000,
        shear_strain_at_yield: 189,
        max_edge: 10000,
        armor: true,
    }
}

fn slash(velocity: u64, area: u64, edged: bool) -> Attack {
    Attack { name: String::from("slash"), edged, velocity, area }
}

fn sword(size: u64) -> Weapon {
    Weapon { name: String::from("sword"), size, attacks: Vec::new() }
}

#[test]
fn score_is_tenths_in_range() {
    let am = iron();
    let wm = iron();
    let w = sword(600);
    for v in [0u64, 150, 1250, 10_000_000] {
        let a = slash(v, 20000, true);
        let t = attack_score(&a, &wm, &am, &w).unwrap();
        assert!(t <= 100);
        let score = t as f64 / 10.0;
        assert!((0.0..=10.0).contains(&score));
    }
}

#[test]
fn zero_shear_yield_is_arithmetic_failure() {
    let am = iron();
    let mut wm = iron();
    wm.shear_yield = 0;
    let a = slash(1250, 20000, true);
    let r = attack_score(&a, &wm, &am, &sword(600));
    assert_eq!(r, Err(ScoreError::ArithmeticFailure));
}

#[test]
fn zero_shear_fracture_is_arithmetic_failure() {
    let am = iron();
    let mut wm = iron();
    wm.shear_fracture = 0;
    let a = slash(1250, 20000, false);
    let r = attack_score(&a, &wm, &am, &sword(600));
    assert_eq!(r, Err(ScoreError::ArithmeticFailure));
}

#[test]
fn zero_max_edge_is_arithmetic_failure() {
    let am = iron();
    let mut wm = iron();
    wm.max_edge = 0;
    let a = slash(1250, 20000, true);
    let r = attack_score(&a, &wm, &am, &sword(600));
    assert_eq!(r, Err(ScoreError::ArithmeticFailure));
}

#[test]
fn zero_weapon_size_is_arithmetic_failure() {
    // weapon weight = size * density = 0: the momentum divisor vanishes
    let am = iron();
    let wm = iron();
    let a = slash(1250, 20000, true);
    let r = attack_score(&a, &wm, &am, &sword(0));
    assert_eq!(r, Err(ScoreError::ArithmeticFailure));
}

#[test]
fn zero_weapon_density_is_arithmetic_failure() {
    let am = iron();
    let mut wm = iron();
    wm.solid_density = 0;
    let a = slash(1250, 20000, true);
    let r = attack_score(&a, &wm, &am, &sword(600));
    assert_eq!(r, Err(ScoreError::ArithmeticFailure));
}

#[test]
fn blunt_zero_area_scores_zero() {
    // a blunt strike with a zero contact-area ceiling can never even
    // dent the plate, whatever the draws
    let am = iron();
    let wm = iron();
    let w = sword(600);
    for _ in 0..20 {
        let a = slash(0, 0, false);
        assert_eq!(attack_score(&a, &wm, &am, &w), Ok(0));
        let a = slash(1250, 0, false);
        assert_eq!(attack_score(&a, &wm, &am, &w), Ok(0));
    }
}

#[test]
fn velocity_never_hurts() {
    // a slow blunt blow only bruises; a fast one fractures everywhere
    let am = iron();
    let wm = iron();
    let w = sword(600);
    let mut slow_sum: u64 = 0;
    let mut fast_sum: u64 = 0;
    for _ in 0..10 {
        slow_sum += attack_score(&slash(0, 20000, false), &wm, &am, &w).unwrap() as u64;
        fast_sum += attack_score(&slash(2000, 20000, false), &wm, &am, &w).unwrap() as u64;
    }
    assert!(slow_sum <= fast_sum);
    assert!(fast_sum >= 10 * 90);
}

#[test]
fn self_match_is_mid_range() {
    // identical weapon and armor materials, moderate speed: neither
    // dominance nor futility
    let am = iron();
    let wm = iron();
    let w = sword(600);
    let mut sum: u64 = 0;
    let runs = 20;
    for _ in 0..runs {
        sum += attack_score(&slash(150, 20000, true), &wm, &am, &w).unwrap() as u64;
    }
    let mean_tenths = sum as f64 / runs as f64;
    assert!(mean_tenths > 0.0);
    assert!(mean_tenths < 100.0);
}

#[test]
fn trial_blunt_zero_area_is_zero() {
    let am = iron();
    let wm = iron();
    let w = sword(600);
    let a = slash(1250, 0, false);
    let t = trial_score(&a, &wm, &am, &w, 10, 10, 60_000_000_000_000, 60_000_000_000_000, 1250, 480);
    assert_eq!(t, 0);
}

#[test]
fn trial_overwhelming_cut_succeeds() {
    // a needle-point strike at extreme speed always cuts through
    let am = iron();
    let wm = iron();
    let w = sword(600);
    let a = slash(10_000_000, 1, true);
    let t = trial_score(&a, &wm, &am, &w, 10, 10, 60_000_000_000_000, 60_000_000_000_000, 1250, 480);
    assert_eq!(t, 100_000);
}

#[test]
fn trial_slow_edged_blow_bruises() {
    // too slow to cut or fracture: residual bruising credit, twice the
    // armor's shear strain at yield
    let am = iron();
    let wm = iron();
    let w = sword(600);
    let a = slash(1, 20000, true);
    let t = trial_score(&a, &wm, &am, &w, 10, 10, 60_000_000_000_000, 60_000_000_000_000, 1250, 480);
    assert_eq!(t, 2 * 189);
}

#[test]
fn draws_stay_in_their_ranges() {
    let mut rng = rand::thread_rng();
    for _ in 0..200 {
        let s = armory::sampler::draw_strength(&mut rng);
        assert!((450..2250).contains(&s));
        let f = armory::sampler::draw_body_factor(&mut rng);
        assert!((900..1100).contains(&f));
        let b = armory::sampler::draw_body_size(&mut rng);
        assert!((43_740_000_000_000..79_860_000_000_000).contains(&b));
    }
}
