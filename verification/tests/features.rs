use flutter_lazy::features::FeatureParams;

fn flags(p: &FeatureParams) -> [bool; 8] {
    [
        p.has_state_management,
        p.has_repository,
        p.has_models,
        p.has_pages,
        p.has_services,
        p.has_utils,
        p.needs_routing,
        p.needs_di,
    ]
}

#[test]
fn new_switches_every_part_on() {
    let p = FeatureParams::new("cart");
    assert_eq!(p.name, "cart");
    assert_eq!(flags(&p), [true; 8]);
}

#[test]
fn minimal_keeps_pages_and_routing() {
    let p = FeatureParams::minimal("cart");
    assert_eq!(p.name, "cart");
    assert_eq!(flags(&p), [false, false, false, true, false, false, true, false]);
}

#[test]
fn ui_only_adds_dependency_injection() {
    let p = FeatureParams::ui_only("cart");
    assert_eq!(p.name, "cart");
    assert_eq!(flags(&p), [false, false, false, true, false, false, true, true]);
}

#[test]
fn bloc_state_type_leaves_out_the_generic_state_management() {
    let p = FeatureParams::with_state_type("cart", "bloc");
    assert_eq!(flags(&p), [false, true, true, true, true, true, true, true]);
    let q = FeatureParams::with_state_type("cart", "cubit");
    assert_eq!(flags(&q), [true; 8]);
    assert_eq!(q.name, "cart");
}
