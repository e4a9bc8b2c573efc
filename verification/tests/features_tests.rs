use mars::config::Config;
use mars::config_file;
use mars::features::assemble_features;
use mars::features::pick_media_stack;
use mars::plan::plan_target;
use mars::plan::TargetPlan;

fn strings(v: &[&str]) -> Vec<String> {
    v.iter().map(|s| s.to_string()).collect()
}

fn resolved_config() -> Config {
    Config::resolve(Default::default(), "/repo", &None, &None)
}

fn host_plan() -> TargetPlan {
    plan_target(None, false, false, false, false, &resolved_config()).unwrap()
}

#[test]
fn media_defaults_to_gstreamer_on_host() {
    assert_eq!(pick_media_stack(&None, &None), strings(&["media-gstreamer"]));
}

#[test]
fn media_defaults_by_target() {
    let t = Some("arm7-unknown-linux-androideabi".to_string());
    assert_eq!(pick_media_stack(&None, &t), strings(&["media-gstreamer"]));
    let t = Some("x86_64-unknown-linux-gnu".to_string());
    assert_eq!(pick_media_stack(&None, &t), strings(&["media-gstreamer"]));
    let t = Some("aarch64-linux-android".to_string());
    assert_eq!(pick_media_stack(&None, &t), strings(&["media-dummy"]));
}

#[test]
fn media_explicit_choice_wins() {
    let t = Some("x86_64-unknown-linux-gnu".to_string());
    assert_eq!(pick_media_stack(&Some("dummy".to_string()), &t), strings(&["media-dummy"]));
}

#[test]
fn host_feature_list_in_rule_order() {
    let cfg = resolved_config();
    let f = assemble_features(&strings(&[]), &None, &host_plan(), false, false, &cfg);
    assert_eq!(
        f,
        strings(&["media-gstreamer", "native-bluetooth", "egl", "canvas2d-raqote", "layout-2013"])
    );
}

#[test]
fn magicleap_mode_excludes_bluetooth() {
    let cfg = resolved_config();
    let plan = plan_target(None, false, true, false, false, &cfg).unwrap();
    let f = assemble_features(&strings(&[]), &None, &plan, false, false, &cfg);
    assert!(!f.contains(&"native-bluetooth".to_string()));
    assert!(f.contains(&"egl".to_string()));
}

#[test]
fn android_target_keeps_bluetooth() {
    let cfg = resolved_config();
    let plan =
        plan_target(Some("aarch64-linux-android".to_string()), false, false, false, false, &cfg)
            .unwrap();
    assert!(plan.android);
    let f = assemble_features(&strings(&[]), &None, &plan, false, false, &cfg);
    assert!(f.contains(&"native-bluetooth".to_string()));
    assert!(f.contains(&"media-dummy".to_string()));
}

#[test]
fn explicit_features_come_first_without_duplicates() {
    let cfg = resolved_config();
    let f = assemble_features(&strings(&["egl", "webgl-backtrace", "egl"]), &None, &host_plan(),
        false, false, &cfg);
    assert_eq!(
        f,
        strings(&[
            "egl",
            "webgl-backtrace",
            "media-gstreamer",
            "native-bluetooth",
            "canvas2d-raqote",
            "layout-2013"
        ])
    );
    for (i, a) in f.iter().enumerate() {
        for (j, b) in f.iter().enumerate() {
            if i != j {
                assert_ne!(a, b);
            }
        }
    }
}

#[test]
fn explicit_canvas_azure_suppresses_raqote() {
    let cfg = resolved_config();
    let f = assemble_features(&strings(&["canvas2d-azure"]), &None, &host_plan(), false, false, &cfg);
    assert!(f.contains(&"canvas2d-azure".to_string()));
    assert!(!f.contains(&"canvas2d-raqote".to_string()));
}

#[test]
fn layout_override_never_emits_both_axis_tokens() {
    let cfg = resolved_config();
    let f = assemble_features(&strings(&[]), &None, &host_plan(), true, false, &cfg);
    assert!(f.contains(&"layout-2020".to_string()));
    assert!(!f.contains(&"layout-2013".to_string()));
}

#[test]
fn persisted_layout_2020_applies_unless_countermanded() {
    let mut file: config_file::Config = Default::default();
    file.build.layout_2020 = Some(true);
    let cfg = Config::resolve(file, "/repo", &None, &None);
    let f = assemble_features(&strings(&[]), &None, &host_plan(), false, false, &cfg);
    assert!(f.contains(&"layout-2020".to_string()));
    let f = assemble_features(&strings(&[]), &None, &host_plan(), false, true, &cfg);
    assert!(f.contains(&"layout-2013".to_string()));
    assert!(!f.contains(&"layout-2020".to_string()));
}

#[test]
fn independent_flags_do_not_interact() {
    let cfg = resolved_config();
    let ml_plan = TargetPlan { target: None, android: false, magicleap: true, uwp: false };
    let with_ml = assemble_features(&strings(&[]), &None, &ml_plan, true, false, &cfg);
    let without_ml = assemble_features(&strings(&[]), &None, &host_plan(), true, false, &cfg);
    assert_eq!(
        with_ml.contains(&"layout-2020".to_string()),
        without_ml.contains(&"layout-2020".to_string())
    );
    let l13 = assemble_features(&strings(&[]), &None, &host_plan(), false, true, &cfg);
    assert_eq!(
        without_ml.contains(&"native-bluetooth".to_string()),
        l13.contains(&"native-bluetooth".to_string())
    );
}
