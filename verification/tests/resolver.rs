use happy_cappy::micro_action::MicroAction;
use happy_cappy::pet::manifest::{Animation, FrameGeometry, PetManifest};
use happy_cappy::pet::resolver::{lookup_with_fallback, lookup_with_fallback_dynamic, resolve_animation_chain};
use happy_cappy::pet::table::AnimationTable;
use happy_cappy::pet::{BehaviorMode, Personality};

fn fixture_manifest(animation_names: &[&str]) -> PetManifest {
    let mut animations = AnimationTable::new();
    for name in animation_names {
        animations.insert((*name).to_string(), Animation::from_indices(&[0]));
    }
    PetManifest {
        manifest_version: 1,
        id: "fixture".into(),
        display_name: "Fixture".into(),
        spritesheet_path: "x.png".into(),
        frame: FrameGeometry { width: 16, height: 16, columns: 4, rows: 1 },
        animations,
    }
}

#[test]
fn chain_for_hovered_uses_personality_variant() {
    let calm = resolve_animation_chain(BehaviorMode::Hovered, Personality::Calm, 0, None);
    assert_eq!(calm, &["hover-calm", "hover", "idle"]);

    let cheerful = resolve_animation_chain(BehaviorMode::Hovered, Personality::Cheerful, 0, None);
    assert_eq!(cheerful, &["hover-cheerful", "hover", "idle"]);

    let lively = resolve_animation_chain(BehaviorMode::Hovered, Personality::Lively, 0, None);
    assert_eq!(lively, &["hover-lively", "hover", "idle"]);
}

#[test]
fn chain_for_default_cycles_through_5_expressions() {
    let p = Personality::Cheerful;
    assert_eq!(resolve_animation_chain(BehaviorMode::Default, p, 0, None), &["idle"]);
    assert_eq!(resolve_animation_chain(BehaviorMode::Default, p, 1, None), &["blink", "idle"]);
    assert_eq!(resolve_animation_chain(BehaviorMode::Default, p, 2, None), &["happy", "idle"]);
    assert_eq!(resolve_animation_chain(BehaviorMode::Default, p, 3, None), &["curious", "idle"]);
    assert_eq!(resolve_animation_chain(BehaviorMode::Default, p, 4, None), &["sleepy", "idle"]);
    assert_eq!(resolve_animation_chain(BehaviorMode::Default, p, 5, None), &["idle"]);
}

#[test]
fn chain_for_action_uses_micro_action_animation() {
    let p = Personality::Cheerful;
    assert_eq!(
        resolve_animation_chain(BehaviorMode::Action, p, 0, Some(MicroAction::Nap)),
        &["sleepy", "idle"]
    );
    assert_eq!(
        resolve_animation_chain(BehaviorMode::Action, p, 0, Some(MicroAction::CheerUp)),
        &["happy", "idle"]
    );
    assert_eq!(resolve_animation_chain(BehaviorMode::Action, p, 0, None), &["idle"]);
}

#[test]
fn chain_for_walking_uses_walk_right_then_walk_then_idle() {
    let chain = resolve_animation_chain(BehaviorMode::Walking, Personality::Cheerful, 0, None);
    assert_eq!(chain, &["walk-right", "walk", "idle"]);
}

#[test]
fn chain_for_dragging_is_drag_then_idle() {
    let chain = resolve_animation_chain(BehaviorMode::Dragging, Personality::Cheerful, 0, None);
    assert_eq!(chain, &["drag", "idle"]);
}

#[test]
fn chain_for_hidden_is_idle_only() {
    let chain = resolve_animation_chain(BehaviorMode::Hidden, Personality::Cheerful, 0, None);
    assert_eq!(chain, &["idle"]);
}

#[test]
fn lookup_falls_back_when_specific_missing() {
    let manifest = fixture_manifest(&["idle"]);
    let (name, _) = lookup_with_fallback(&manifest, &["hover-lively", "hover", "idle"]);
    assert_eq!(name, "idle");
}

#[test]
fn lookup_uses_second_tier_when_specific_missing() {
    let manifest = fixture_manifest(&["idle", "hover"]);
    let (name, _) = lookup_with_fallback(&manifest, &["hover-lively", "hover", "idle"]);
    assert_eq!(name, "hover");
}

#[test]
fn lookup_uses_first_tier_when_present() {
    let manifest = fixture_manifest(&["idle", "hover", "hover-lively"]);
    let (name, _) = lookup_with_fallback(&manifest, &["hover-lively", "hover", "idle"]);
    assert_eq!(name, "hover-lively");
}

#[test]
fn lookup_with_fallback_returns_matched_name_verbatim_even_outside_whitelist() {
    let manifest = fixture_manifest(&["idle", "notify-running"]);
    let (name, _) = lookup_with_fallback(&manifest, &["notify-running", "idle"]);
    assert_eq!(name, "notify-running");
}

#[test]
fn dynamic_lookup_returns_first_present_name() {
    let manifest = fixture_manifest(&["idle", "notify-running"]);
    let (name, _) = lookup_with_fallback_dynamic(
        &manifest,
        &["notify-deploy", "notify-running", "notify-message", "idle"],
    );
    assert_eq!(name, "notify-running");
}

#[test]
fn dynamic_lookup_falls_back_to_idle() {
    let manifest = fixture_manifest(&["idle"]);
    let (name, _) = lookup_with_fallback_dynamic(&manifest, &["notify-running", "notify-message"]);
    assert_eq!(name, "idle");
}

#[test]
fn dynamic_lookup_honors_runtime_string_first() {
    let manifest = fixture_manifest(&["idle", "notify-custom"]);
    let requested = format!("notify-{}", "custom");
    let (name, _) = lookup_with_fallback_dynamic(&manifest, &[requested.as_str(), "idle"]);
    assert_eq!(name, "notify-custom");
}

#[test]
fn empty_chain_resolves_to_idle_with_its_animation() {
    let mut manifest = fixture_manifest(&["walk"]);
    manifest.animations.insert("idle".to_string(), Animation::from_indices(&[3, 2]));
    let (name, anim) = lookup_with_fallback(&manifest, &[]);
    assert_eq!(name, "idle");
    assert_eq!(anim.frame_count(), 2);
    assert_eq!(anim.sprite_index(0), 3);
}
