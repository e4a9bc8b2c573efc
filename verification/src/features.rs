//! The feature assembler: computes the ordered, duplicate-free feature list
//! for the build command.  Rules apply in a fixed order — media backend,
//! platform bluetooth, graphics surface binding, canvas backend, layout
//! engine version — so that later rules can see earlier tokens; every token
//! is added at most once, by exact string equality.

use vstd::prelude::*;

verus! {

use vstd::string::StringExecFns;
use crate::config::Config;
use crate::plan::TargetPlan;
use crate::plan::TargetPlanView;
use crate::text::contains_seq;
use crate::text::dedup_spec;
use crate::text::dedup_strings;
use crate::text::lemma_dedup_no_duplicates;
use crate::text::lemma_push_unique_membership;
use crate::text::lemma_push_unique_no_duplicates;
use crate::text::push_unique;
use crate::text::push_unique_string;
use crate::text::str_contains;

/// The gstreamer backend serves host builds, ARM-android targets and 64-bit
/// x86 targets; everything else gets the dummy backend.
pub open spec fn spec_use_gstreamer(target: Option<Seq<char>>) -> bool {
    match target {
        Some(t) => (contains_seq(t, "arm7"@) && contains_seq(t, "android"@)) || contains_seq(
            t,
            "x86_64"@,
        ),
        None => true,
    }
}

/// The single feature token naming the media backend.
pub open spec fn spec_media_token(media_stack: Option<Seq<char>>, target: Option<Seq<char>>) -> Seq<
    char,
> {
    "media-"@ + (match media_stack {
        Some(m) => m,
        None => if spec_use_gstreamer(target) {
            "gstreamer"@
        } else {
            "dummy"@
        },
    })
}

/// Build the media feature token itself.
fn media_token(media_stack: &Option<String>, target: &Option<String>) -> (token: String)
    ensures
        token@ == spec_media_token(media_stack.deep_view(), target.deep_view()),
{
    let mut token = String::from_str("media-");
    match media_stack {
        Some(m) => token.append(m.as_str()),
        None => {
            let use_gstreamer = match target {
                Some(t) => (str_contains(t.as_str(), "arm7") && str_contains(t.as_str(), "android"))
                    || str_contains(t.as_str(), "x86_64"),
                None => true,
            };
            if use_gstreamer {
                token.append("gstreamer");
            } else {
                token.append("dummy");
            }
        },
    }
    token
}

/// Choose the media backend and emit its feature token.
pub fn pick_media_stack(media_stack: &Option<String>, target: &Option<String>) -> (r: Vec<String>)
    ensures
        r.deep_view() =~= seq![spec_media_token(media_stack.deep_view(), target.deep_view())],
{
    let token = media_token(media_stack, target);
    let mut r: Vec<String> = Vec::new();
    r.push(token);
    r
}

/// The layout-engine override selects the 2020 engine; otherwise the 2013
/// baseline applies.
pub open spec fn spec_layout_2020(
    with_layout_2020: bool,
    with_layout_2013: bool,
    config_layout_2020: bool,
) -> bool {
    with_layout_2020 || (config_layout_2020 && !with_layout_2013)
}

/// The complete feature list: the deduplicated explicit list, then each
/// derived token in rule order, each added only if absent.
pub open spec fn spec_features(
    explicit: Seq<Seq<char>>,
    media_stack: Option<Seq<char>>,
    plan: TargetPlanView,
    with_layout_2020: bool,
    with_layout_2013: bool,
    config_layout_2020: bool,
) -> Seq<Seq<char>> {
    let f0 = dedup_spec(explicit);
    let f1 = push_unique(f0, spec_media_token(media_stack, plan.target));
    let f2 = if !plan.magicleap {
        push_unique(f1, "native-bluetooth"@)
    } else {
        f1
    };
    let f3 = push_unique(f2, "egl"@);
    let f4 = if !f3.contains("canvas2d-azure"@) {
        push_unique(f3, "canvas2d-raqote"@)
    } else {
        f3
    };
    if spec_layout_2020(with_layout_2020, with_layout_2013, config_layout_2020) {
        push_unique(f4, "layout-2020"@)
    } else if !f4.contains("layout-2020"@) {
        push_unique(f4, "layout-2013"@)
    } else {
        f4
    }
}

/// Assemble the ordered feature list for a planned target.  The result
/// never holds the same token twice.
pub fn assemble_features(
    explicit: &Vec<String>,
    media_stack: &Option<String>,
    plan: &TargetPlan,
    with_layout_2020: bool,
    with_layout_2013: bool,
    config: &Config,
) -> (r: Vec<String>)
    ensures
        r.deep_view() == spec_features(
            explicit.deep_view(),
            media_stack.deep_view(),
            plan@,
            with_layout_2020,
            with_layout_2013,
            config.build.layout_2020,
        ),
        r.deep_view().no_duplicates(),
{
    let mut features = dedup_strings(explicit);

    let media = media_token(media_stack, &plan.target);
    push_unique_string(&mut features, media);

    if !plan.magicleap {
        push_unique_string(&mut features, String::from_str("native-bluetooth"));
    }
    push_unique_string(&mut features, String::from_str("egl"));

    if !crate::text::list_contains(&features, "canvas2d-azure") {
        push_unique_string(&mut features, String::from_str("canvas2d-raqote"));
    }

    if with_layout_2020 || (config.build.layout_2020 && !with_layout_2013) {
        push_unique_string(&mut features, String::from_str("layout-2020"));
    } else if !crate::text::list_contains(&features, "layout-2020") {
        push_unique_string(&mut features, String::from_str("layout-2013"));
    }

    proof {
        let ev = explicit.deep_view();
        let mt = spec_media_token(media_stack.deep_view(), plan@.target);
        lemma_dedup_no_duplicates(ev);
        let f0 = dedup_spec(ev);
        lemma_push_unique_no_duplicates(f0, mt);
        let f1 = push_unique(f0, mt);
        lemma_push_unique_no_duplicates(f1, "native-bluetooth"@);
        let f2 = if !plan@.magicleap {
            push_unique(f1, "native-bluetooth"@)
        } else {
            f1
        };
        lemma_push_unique_no_duplicates(f2, "egl"@);
        let f3 = push_unique(f2, "egl"@);
        lemma_push_unique_no_duplicates(f3, "canvas2d-raqote"@);
        let f4 = if !f3.contains("canvas2d-azure"@) {
            push_unique(f3, "canvas2d-raqote"@)
        } else {
            f3
        };
        lemma_push_unique_no_duplicates(f4, "layout-2020"@);
        lemma_push_unique_no_duplicates(f4, "layout-2013"@);
    }

    features
}

/// Independent flags do not interact: the AR-device switch never changes
/// whether a layout token is in the list, and the layout override never
/// changes whether the bluetooth token is, whatever order the flags were
/// given in.
pub proof fn lemma_features_flag_independence(
    explicit: Seq<Seq<char>>,
    media_stack: Option<Seq<char>>,
    target: Option<Seq<char>>,
    android: bool,
    uwp: bool,
    magicleap_a: bool,
    magicleap_b: bool,
    with_layout_2020_a: bool,
    with_layout_2013_a: bool,
    config_layout_2020_a: bool,
    with_layout_2020_b: bool,
    with_layout_2013_b: bool,
    config_layout_2020_b: bool,
)
    ensures
        ({
            let plan_a = TargetPlanView { target, android, magicleap: magicleap_a, uwp };
            let plan_b = TargetPlanView { target, android, magicleap: magicleap_b, uwp };
            let fa = spec_features(
                explicit,
                media_stack,
                plan_a,
                with_layout_2020_a,
                with_layout_2013_a,
                config_layout_2020_a,
            );
            let fb = spec_features(
                explicit,
                media_stack,
                plan_b,
                with_layout_2020_a,
                with_layout_2013_a,
                config_layout_2020_a,
            );
            let fc = spec_features(
                explicit,
                media_stack,
                plan_a,
                with_layout_2020_b,
                with_layout_2013_b,
                config_layout_2020_b,
            );
            &&& fa.contains("layout-2020"@) == fb.contains("layout-2020"@)
            &&& fa.contains("layout-2013"@) == fb.contains("layout-2013"@)
            &&& fa.contains("native-bluetooth"@) == fc.contains("native-bluetooth"@)
        }),
{
    reveal_strlit("native-bluetooth");
    reveal_strlit("egl");
    reveal_strlit("canvas2d-azure");
    reveal_strlit("canvas2d-raqote");
    reveal_strlit("layout-2020");
    reveal_strlit("layout-2013");
    assert("native-bluetooth"@.len() == 16);
    assert("egl"@.len() == 3);
    assert("canvas2d-azure"@.len() == 14);
    assert("canvas2d-raqote"@.len() == 15);
    assert("layout-2020"@.len() == 11);
    assert("layout-2013"@.len() == 11);
    assert("layout-2020"@[9] != "layout-2013"@[9]);

    let plan_a = TargetPlanView { target, android, magicleap: magicleap_a, uwp };
    let plan_b = TargetPlanView { target, android, magicleap: magicleap_b, uwp };
    let mt = spec_media_token(media_stack, target);
    assert(mt.len() >= 6 && mt[0] == 'm') by {
        reveal_strlit("media-");
        assert("media-"@.len() == 6);
        assert(("media-"@ + (match media_stack {
            Some(m) => m,
            None => if spec_use_gstreamer(target) {
                "gstreamer"@
            } else {
                "dummy"@
            },
        }))[0] == 'm');
    }
    assert(mt != "layout-2020"@ && mt != "layout-2013"@ && mt != "native-bluetooth"@ && mt
        != "canvas2d-azure"@) by {
        assert("layout-2020"@[0] == 'l');
        assert("layout-2013"@[0] == 'l');
        assert("native-bluetooth"@[0] == 'n');
        assert("canvas2d-azure"@[0] == 'c');
    }

    let f0 = dedup_spec(explicit);
    let f1 = push_unique(f0, mt);
    let f2_a = if !magicleap_a {
        push_unique(f1, "native-bluetooth"@)
    } else {
        f1
    };
    let f2_b = if !magicleap_b {
        push_unique(f1, "native-bluetooth"@)
    } else {
        f1
    };
    let f3_a = push_unique(f2_a, "egl"@);
    let f3_b = push_unique(f2_b, "egl"@);

    // Tokens other than the bluetooth token are unaffected by the
    // AR-device switch, stage by stage.
    assert forall|y: Seq<char>| y != "native-bluetooth"@ implies #[trigger] f3_a.contains(y)
        == f3_b.contains(y) by {
        lemma_push_unique_membership(f1, "native-bluetooth"@, y);
        lemma_push_unique_membership(f2_a, "egl"@, y);
        lemma_push_unique_membership(f2_b, "egl"@, y);
    }

    assert(f3_a.contains("canvas2d-azure"@) == f3_b.contains("canvas2d-azure"@));
    let f4_a = if !f3_a.contains("canvas2d-azure"@) {
        push_unique(f3_a, "canvas2d-raqote"@)
    } else {
        f3_a
    };
    let f4_b = if !f3_b.contains("canvas2d-azure"@) {
        push_unique(f3_b, "canvas2d-raqote"@)
    } else {
        f3_b
    };
    assert forall|y: Seq<char>| y != "native-bluetooth"@ implies #[trigger] f4_a.contains(y)
        == f4_b.contains(y) by {
        lemma_push_unique_membership(f3_a, "canvas2d-raqote"@, y);
        lemma_push_unique_membership(f3_b, "canvas2d-raqote"@, y);
    }

    // The layout stage pushes the same token on both sides, so layout-token
    // membership agrees.
    let l20 = spec_layout_2020(with_layout_2020_a, with_layout_2013_a, config_layout_2020_a);
    assert(f4_a.contains("layout-2020"@) == f4_b.contains("layout-2020"@));
    if l20 {
        lemma_push_unique_membership(f4_a, "layout-2020"@, "layout-2020"@);
        lemma_push_unique_membership(f4_b, "layout-2020"@, "layout-2020"@);
        lemma_push_unique_membership(f4_a, "layout-2020"@, "layout-2013"@);
        lemma_push_unique_membership(f4_b, "layout-2020"@, "layout-2013"@);
    } else if !f4_a.contains("layout-2020"@) {
        lemma_push_unique_membership(f4_a, "layout-2013"@, "layout-2020"@);
        lemma_push_unique_membership(f4_b, "layout-2013"@, "layout-2020"@);
        lemma_push_unique_membership(f4_a, "layout-2013"@, "layout-2013"@);
        lemma_push_unique_membership(f4_b, "layout-2013"@, "layout-2013"@);
    }

    // The layout flags only decide the final push, and no layout token is
    // the bluetooth token, so bluetooth membership agrees.
    let bt = "native-bluetooth"@;
    lemma_push_unique_membership(f4_a, "layout-2020"@, bt);
    lemma_push_unique_membership(f4_a, "layout-2013"@, bt);
}

} // verus!
