use fmc_noise::target::Target;

fn owned(names: &[&str]) -> Vec<String> {
    names.iter().map(|s| s.to_string()).collect()
}

#[test]
fn new_switches_on_what_the_features_imply() {
    let target = Target::new("x86_64", &["avx2", "fma"]);
    assert_eq!(target.arch(), "x86_64");
    assert_eq!(
        target.features(),
        owned(&["avx", "avx2", "fma", "sse", "sse2", "sse3", "sse4.1", "ssse3"]).as_slice()
    );
}

#[test]
fn new_with_one_feature() {
    let target = Target::new("x86", &["sse4.2"]);
    assert_eq!(target.arch(), "x86");
    assert_eq!(
        target.features(),
        owned(&["sse", "sse2", "sse3", "sse4.1", "sse4.2", "ssse3"]).as_slice()
    );
    let target = Target::new("x86", &["sse2"]);
    assert_eq!(target.features(), owned(&["sse", "sse2"]).as_slice());
    let target = Target::new("aarch64", &["neon"]);
    assert_eq!(target.features(), owned(&["neon"]).as_slice());
}

#[test]
fn new_sorts_the_features() {
    // The database lists `crt-static` behind all other features.
    let target = Target::new("x86_64", &["sse2", "crt-static"]);
    assert_eq!(target.features(), owned(&["crt-static", "sse", "sse2"]).as_slice());
}

#[test]
fn new_counts_a_feature_once() {
    let target = Target::new("x86_64", &["sse2", "sse", "sse2"]);
    assert_eq!(target.features(), owned(&["sse", "sse2"]).as_slice());
}

#[test]
fn new_without_features() {
    let target = Target::new("x86_64", &[]);
    assert_eq!(target.arch(), "x86_64");
    assert!(target.features().is_empty());
    assert!(!target.has_features_specified());
    assert_eq!(target.features_string(), "");
}

#[test]
fn try_new_refuses_a_feature_of_another_architecture() {
    assert!(Target::try_new("x86_64", &["neon"]).is_none());
    assert!(Target::try_new("aarch64", &["avx2"]).is_none());
    assert!(Target::try_new("x86_64", &["avx2", "no-such-feature"]).is_none());
}

#[test]
fn try_new_on_an_architecture_without_features() {
    assert!(Target::try_new("sparc64", &["avx2"]).is_none());
    let bare = Target::try_new("sparc64", &[]);
    assert_eq!(bare, Some(Target { architecture: "sparc64".to_string(), features: Vec::new() }));
}

#[test]
fn try_new_agrees_with_new() {
    assert_eq!(Target::try_new("x86_64", &["avx2", "fma"]), Some(Target::new("x86_64", &["avx2", "fma"])));
}

#[test]
fn features_string_joins_and_drops_dots() {
    let target = Target::new("x86_64", &["avx2", "fma"]);
    assert_eq!(target.features_string(), "avx_avx2_fma_sse_sse2_sse3_sse41_ssse3");
    let target = Target::new("x86_64", &["sse4.2"]);
    assert_eq!(target.features_string(), "sse_sse2_sse3_sse41_sse42_ssse3");
    let target = Target::new("aarch64", &["neon"]);
    assert_eq!(target.features_string(), "neon");
}

#[test]
fn features_list_joins_by_commas() {
    let target = Target::new("x86_64", &["sse4.2"]);
    assert_eq!(target.features_list(), "sse,sse2,sse3,sse4.1,sse4.2,ssse3");
    assert_eq!(Target::new("x86_64", &[]).features_list(), "");
}

#[test]
fn has_features_specified_tells_bare_tiers_apart() {
    assert!(Target::new("x86_64", &["sse2"]).has_features_specified());
    assert!(!Target::new("x86_64", &[]).has_features_specified());
}

#[test]
fn target_arch_attribute() {
    let target = Target::new("aarch64", &["neon"]);
    assert_eq!(target.target_arch(), "#[cfg(target_arch = \"aarch64\")]");
}

#[test]
fn target_feature_attributes() {
    let target = Target::new("x86", &["sse2"]);
    assert_eq!(
        target.target_feature(),
        owned(&["#[target_feature(enable = \"sse\")]", "#[target_feature(enable = \"sse2\")]"])
    );
    assert_eq!(
        target.fn_attrs(),
        owned(&[
            "#[target_feature(enable = \"sse\")]",
            "#[target_feature(enable = \"sse2\")]",
            "#[cfg(target_arch = \"x86\")]",
        ])
    );
}

#[test]
fn detection_macros_by_family() {
    assert_eq!(Target::new("x86_64", &[]).detection_macro_name(), "is_x86_feature_detected");
    assert_eq!(Target::new("x86", &[]).detection_macro_name(), "is_x86_feature_detected");
    assert_eq!(Target::new("aarch64", &[]).detection_macro_name(), "is_aarch64_feature_detected");
    assert_eq!(Target::new("risv64", &[]).detection_macro_name(), "is_riscv_feature_detected");
    assert_eq!(Target::new("arm", &[]).detection_macro_name(), "is_arm_feature_detected");
}

#[test]
fn features_detected_asks_for_every_feature() {
    let target = Target::new("x86_64", &["sse2"]);
    assert_eq!(
        target.features_detected(),
        "true && std::arch::is_x86_feature_detected!(\"sse\") && std::arch::is_x86_feature_detected!(\"sse2\")"
    );
    assert_eq!(Target::new("x86_64", &[]).features_detected(), "true");
}

#[test]
fn literal_names_the_tier() {
    assert_eq!(Target::new("x86", &["sse2"]).literal(), "x86+sse+sse2");
    assert_eq!(Target::new("aarch64", &["neon"]).literal(), "aarch64+neon");
    assert_eq!(Target::new("x86", &[]).literal(), "x86");
}
