use tangle_mcp_blueprint::tier::{ResourceLimits, ResourceTier, GIB, MILLICORES_PER_CORE};

const TIERS: [ResourceTier; 3] = [ResourceTier::Small, ResourceTier::Medium, ResourceTier::Large];

#[test]
fn cpu_limits_are_one_two_and_four_cores() {
    assert_eq!(ResourceTier::Small.cpu_limit(), 1000);
    assert_eq!(ResourceTier::Medium.cpu_limit(), 2000);
    assert_eq!(ResourceTier::Large.cpu_limit(), 4000);
    assert_eq!(MILLICORES_PER_CORE, 1000);
    // In whole cores, as a float.
    assert_eq!(ResourceTier::Small.cpu_limit() as f64 / 1000.0, 1.0);
    assert_eq!(ResourceTier::Medium.cpu_limit() as f64 / 1000.0, 2.0);
    assert_eq!(ResourceTier::Large.cpu_limit() as f64 / 1000.0, 4.0);
}

#[test]
fn memory_limits_are_one_two_and_four_gibibytes() {
    assert_eq!(ResourceTier::Small.memory_limit(), 1024 * 1024 * 1024);
    assert_eq!(ResourceTier::Medium.memory_limit(), 2 * 1024 * 1024 * 1024);
    assert_eq!(ResourceTier::Large.memory_limit(), 4 * 1024 * 1024 * 1024);
}

#[test]
fn storage_limits_are_five_ten_and_twenty_gibibytes() {
    assert_eq!(GIB, 1024 * 1024 * 1024);
    assert_eq!(ResourceTier::Small.storage_limit(), 5 * 1024 * 1024 * 1024);
    assert_eq!(ResourceTier::Medium.storage_limit(), 10 * 1024 * 1024 * 1024);
    assert_eq!(ResourceTier::Large.storage_limit(), 20 * 1024 * 1024 * 1024);
    assert_eq!(ResourceTier::Large.storage_limit(), 21_474_836_480);
}

#[test]
fn limits_gathers_the_three_limits() {
    for tier in TIERS {
        assert_eq!(
            tier.limits(),
            ResourceLimits {
                cpu_millicores: tier.cpu_limit(),
                memory_bytes: tier.memory_limit(),
                storage_bytes: tier.storage_limit(),
            }
        );
    }
    assert_eq!(
        ResourceTier::Medium.limits(),
        ResourceLimits {
            cpu_millicores: 2000,
            memory_bytes: 2_147_483_648,
            storage_bytes: 10_737_418_240,
        }
    );
}

#[test]
fn limits_increase_strictly_from_small_to_large() {
    for pair in TIERS.windows(2) {
        let (smaller, larger) = (pair[0].limits(), pair[1].limits());
        assert!(smaller.cpu_millicores < larger.cpu_millicores);
        assert!(smaller.memory_bytes < larger.memory_bytes);
        assert!(smaller.storage_bytes < larger.storage_bytes);
    }
}

#[test]
fn the_default_tier_is_medium() {
    assert_eq!(ResourceTier::default(), ResourceTier::Medium);
}
