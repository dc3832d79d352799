use litecraft_resources::gui::Button;
use litecraft_resources::gui::Container;
use litecraft_resources::gui::ContainerPosition;
use litecraft_resources::resource::ResourceId;

fn id(ns: &str, path: &str) -> ResourceId {
    ResourceId::new(ns.to_string(), path.to_string())
}

#[test]
fn resource_identity_is_structural() {
    let a = id("minecraft", "textures/dirt.png");
    let b = id("minecraft", "textures/dirt.png");
    let c = id("litecraft", "textures/dirt.png");
    let d = id("minecraft", "textures/stone.png");
    assert!(a.matches(&b));
    assert!(b.matches(&a));
    assert!(!a.matches(&c));
    assert!(!a.matches(&d));
    let e = a.clone();
    assert!(e.matches(&a));
    assert_eq!(a.namespace(), "minecraft");
    assert_eq!(a.path(), "textures/dirt.png");
}

#[test]
fn resolution_is_deterministic() {
    let a = id("minecraft", "textures/dirt.png");
    assert_eq!(a.resolve("assets"), "assets/minecraft/textures/dirt.png");
    assert_eq!(a.resolve("assets"), "assets/minecraft/textures/dirt.png");
    let b = id("ns", "p");
    assert_eq!(b.resolve(""), "/ns/p");
}

#[test]
fn scale_grows_away_from_anchor() {
    let r = ContainerPosition::UpRight.get_scale(5, 6, 7, 8, 2);
    assert_eq!(r, (205, 6, 7, 208));
    let r = ContainerPosition::UpLeft.get_scale(5, 6, 7, 8, 0);
    assert_eq!(r, (5, 6, 7, 8));
    let r = ContainerPosition::BottomLeft.get_scale(-5, 0, 10, 20, 1);
    assert_eq!(r, (-5, 100, 110, 20));
}

#[test]
fn middle_center_position_is_centered() {
    let r = ContainerPosition::MiddleCenter.get_position(800, 600, 10, 20, 1, 2, 100, 50, 3);
    // anchor: (800/2 - 100/2, 600/2 - 50/2) = (350, 275)
    // scaled from (10+1+350, 20+2+275, 10+100, 20+50) with s = 300
    assert_eq!(r, (661, 597, 410, 370));
}

#[test]
fn corner_positions_pin_to_edges() {
    let r = ContainerPosition::UpLeft.get_position(800, 600, 0, 0, 4, 5, 10, 10, 0);
    assert_eq!(r, (4, 5, 10, 10));
    let r = ContainerPosition::BottonRight.get_position(100, 80, 0, 0, 0, 0, 30, 20, 0);
    assert_eq!(r, (70, 60, 30, 20));
    let r = ContainerPosition::UpCenter.get_position(101, 80, 0, 0, 0, 0, 31, 20, 0);
    assert_eq!(r, (35, 0, 31, 20));
}

#[test]
fn buttons_carry_their_texture_id() {
    let texture = id("minecraft", "gui/button.png");
    let button = Button::new(texture.clone());
    assert!(button.texture().matches(&texture));
    let group = Container { position: ContainerPosition::BottonCenter, buttons: vec![button] };
    assert_eq!(group.buttons.len(), 1);
    assert!(matches!(group.position, ContainerPosition::BottonCenter));
}
