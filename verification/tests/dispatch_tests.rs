use fmc_noise::dispatch::{
    feature_fn_name, has_all_features, has_name, lane_width, make_multiversioned_fn, Dispatcher,
};
use fmc_noise::target::Target;

fn pool(names: &[&str]) -> Vec<String> {
    names.iter().map(|s| s.to_string()).collect()
}

fn kernel() -> Dispatcher {
    match make_multiversioned_fn("kernel") {
        Some(dispatcher) => dispatcher,
        None => panic!("the database lacks a feature of the tiers"),
    }
}

#[test]
fn version_names() {
    let tier = Target::new("x86_64", &["avx2", "fma"]);
    assert_eq!(
        feature_fn_name("abs_1d", Some(&tier)),
        "abs_1d_avx_avx2_fma_sse_sse2_sse3_sse41_ssse3_version"
    );
    assert_eq!(feature_fn_name("abs_1d", None), "abs_1d_default_version");
    let bare = Target::new("x86_64", &[]);
    assert_eq!(feature_fn_name("abs_1d", Some(&bare)), "abs_1d_default_version");
}

#[test]
fn the_tiers_of_every_kernel() {
    let dispatcher = kernel();
    assert_eq!(dispatcher.name, "kernel");
    let tiers: Vec<String> = dispatcher.targets.iter().map(|t| t.literal()).collect();
    assert_eq!(
        tiers,
        pool(&[
            "x86_64+avx+avx2+fma+sse+sse2+sse3+sse4.1+ssse3",
            "x86_64+sse+sse2+sse3+sse4.1+sse4.2+ssse3",
            "x86+avx+avx2+fma+sse+sse2+sse3+sse4.1+ssse3",
            "x86+sse+sse2+sse3+sse4.1+sse4.2+ssse3",
            "x86+sse+sse2",
            "aarch64+neon",
        ])
    );
}

#[test]
fn versions_are_one_for_each_tier_and_the_default() {
    let versions = kernel().feature_fns();
    assert_eq!(versions.len(), 7);
    assert_eq!(versions[0].name, "kernel_avx_avx2_fma_sse_sse2_sse3_sse41_ssse3_version");
    assert_eq!(versions[0].target, Some(0));
    assert_eq!(versions[0].features, "avx,avx2,fma,sse,sse2,sse3,sse4.1,ssse3");
    assert_eq!(versions[4].name, "kernel_sse_sse2_version");
    assert_eq!(versions[4].target, Some(4));
    assert_eq!(versions[4].features, "sse,sse2");
    assert_eq!(versions[5].name, "kernel_neon_version");
    assert_eq!(versions[6].name, "kernel_default_version");
    assert_eq!(versions[6].target, None);
    assert_eq!(versions[6].features, "");
}

#[test]
fn select_takes_the_best_tier_that_the_hardware_has() {
    let dispatcher = kernel();
    let modern = pool(&[
        "avx", "avx2", "fma", "sse", "sse2", "sse3", "sse4.1", "sse4.2", "ssse3", "popcnt",
    ]);
    assert_eq!(dispatcher.select("x86_64", &modern), Some(0));
    assert_eq!(dispatcher.select("x86", &modern), Some(2));
    let older = pool(&["sse", "sse2", "sse3", "sse4.1", "sse4.2", "ssse3"]);
    assert_eq!(dispatcher.select("x86_64", &older), Some(1));
    assert_eq!(dispatcher.select("x86", &older), Some(3));
    let oldest = pool(&["sse2", "sse"]);
    assert_eq!(dispatcher.select("x86", &oldest), Some(4));
    assert_eq!(dispatcher.select("aarch64", &pool(&["neon"])), Some(5));
}

#[test]
fn select_falls_back_to_the_default() {
    let dispatcher = kernel();
    assert_eq!(dispatcher.select("x86_64", &pool(&["sse", "sse2"])), None);
    assert_eq!(dispatcher.select("x86_64", &pool(&[])), None);
    assert_eq!(dispatcher.select("aarch64", &pool(&["avx2"])), None);
    assert_eq!(dispatcher.select("riscv64", &pool(&["v"])), None);
    // Missing one feature of a tier is missing the tier.
    let no_fma = pool(&["avx", "avx2", "sse", "sse2", "sse3", "sse4.1", "ssse3"]);
    assert_eq!(dispatcher.select("x86_64", &no_fma), None);
}

#[test]
fn select_passes_over_tiers_without_features() {
    let dispatcher = Dispatcher {
        targets: vec![Target::new("x86_64", &[]), Target::new("x86_64", &["sse2"])],
        name: "kernel".to_string(),
    };
    assert_eq!(dispatcher.select("x86_64", &pool(&["sse", "sse2"])), Some(1));
    assert_eq!(dispatcher.select("x86_64", &pool(&[])), None);
}

#[test]
fn best_target_is_the_first_of_the_architecture() {
    let dispatcher = kernel();
    assert_eq!(dispatcher.best_target("x86_64"), Some(0));
    assert_eq!(dispatcher.best_target("x86"), Some(2));
    assert_eq!(dispatcher.best_target("aarch64"), Some(5));
    assert_eq!(dispatcher.best_target("riscv64"), None);
}

#[test]
fn dispatch_is_skipped_where_the_build_has_the_best_tier() {
    let dispatcher = kernel();
    let all = pool(&["avx", "avx2", "fma", "sse", "sse2", "sse3", "sse4.1", "ssse3"]);
    assert!(dispatcher.skips_dispatch("x86_64", &all));
    assert!(dispatcher.skips_dispatch("x86", &all));
    assert!(dispatcher.skips_dispatch("aarch64", &pool(&["neon"])));
}

#[test]
fn dispatch_is_skipped_on_an_architecture_without_tiers() {
    assert!(kernel().skips_dispatch("riscv64", &pool(&[])));
    assert!(kernel().skips_dispatch("wasm32", &pool(&["simd128"])));
}

#[test]
fn dispatch_is_kept_where_the_build_lacks_the_best_tier() {
    let dispatcher = kernel();
    assert!(!dispatcher.skips_dispatch("x86_64", &pool(&["sse", "sse2"])));
    let second_best = pool(&["sse", "sse2", "sse3", "sse4.1", "sse4.2", "ssse3"]);
    assert!(!dispatcher.skips_dispatch("x86_64", &second_best));
    assert!(!dispatcher.skips_dispatch("aarch64", &pool(&[])));
}

#[test]
fn names_in_a_pool() {
    let names = pool(&["sse", "sse2"]);
    assert!(has_name(&names, &"sse2".to_string()));
    assert!(!has_name(&names, &"sse3".to_string()));
    assert!(has_all_features(&Target::new("x86", &["sse2"]), &names));
    assert!(!has_all_features(&Target::new("x86", &["sse4.2"]), &names));
    assert!(has_all_features(&Target::new("x86", &[]), &pool(&[])));
}

#[test]
fn lane_width_falls_back_to_scalar() {
    assert_eq!(lane_width(Some(8)), 8);
    assert_eq!(lane_width(Some(16)), 16);
    assert_eq!(lane_width(None), 1);
}
