use patternfly_yew::button::{Align, Button, Effect, Icon, Msg, Part, Props, Variant};

fn props_with_icon(align: Align) -> Props {
    let mut p = Props::default();
    p.label = "Save".to_string();
    p.icon = Some(Icon { class: "fas fa-save".to_string() });
    p.align = align;
    p
}

fn describe(parts: &[Part]) -> Vec<String> {
    parts
        .iter()
        .map(|p| match p {
            Part::Icon { classes, icon } => format!("icon[{}]:{}", classes.to_string(), icon.class),
            Part::Label(s) => format!("label:{}", s),
        })
        .collect()
}

#[test]
fn variant_classes_are_fixed() {
    assert_eq!(Variant::Unstyled.as_classes(), Vec::<&str>::new());
    assert_eq!(Variant::Primary.as_classes(), vec!["pf-m-primary"]);
    assert_eq!(Variant::Secondary.as_classes(), vec!["pf-m-secondary"]);
    assert_eq!(Variant::Tertiary.as_classes(), vec!["pf-m-tertiary"]);
    assert_eq!(Variant::Warning.as_classes(), vec!["pf-m-warning"]);
    assert_eq!(Variant::Danger.as_classes(), vec!["pf-m-danger"]);
    assert_eq!(Variant::Link.as_classes(), vec!["pf-m-link"]);
    assert_eq!(Variant::InlineLink.as_classes(), vec!["pf-m-link", "pf-m-inline"]);
    assert_eq!(Variant::Control.as_classes(), vec!["pf-m-control"]);
    assert_eq!(Variant::Plain.as_classes(), vec!["pf-m-plain"]);
}

#[test]
fn variant_classes_are_deterministic() {
    assert_eq!(Variant::InlineLink.as_classes(), Variant::InlineLink.as_classes());
}

#[test]
fn defaults() {
    assert_eq!(Variant::default(), Variant::Unstyled);
    assert_eq!(Align::default(), Align::Start);
    let p = Props::default();
    assert_eq!(p.button_type, "button");
    assert_eq!(p.id, "");
    assert_eq!(p.label, "");
    assert!(p.class.is_none());
    assert!(p.icon.is_none());
    assert!(!p.disabled);
    assert!(!p.expanded);
    assert_eq!(p.variant, Variant::Unstyled);
    assert_eq!(p.align, Align::Start);
}

#[test]
fn icon_before_label_at_start() {
    let b = Button::create(props_with_icon(Align::Start));
    assert_eq!(
        describe(&b.label()),
        vec!["icon[pf-c-button__icon pf-m-start]:fas fa-save", "label:Save"]
    );
}

#[test]
fn icon_after_label_at_end() {
    let b = Button::create(props_with_icon(Align::End));
    assert_eq!(
        describe(&b.label()),
        vec!["label:Save", "icon[pf-c-button__icon pf-m-end]:fas fa-save"]
    );
}

#[test]
fn label_alone_without_icon() {
    let mut p = Props::default();
    p.label = "Go".to_string();
    let b = Button::create(p);
    assert!(b.icon().is_none());
    assert_eq!(describe(&b.label()), vec!["label:Go"]);
}

#[test]
fn root_classes_default_base() {
    let mut p = Props::default();
    p.variant = Variant::InlineLink;
    let b = Button::create(p);
    assert_eq!(b.classes().to_string(), "pf-c-button pf-m-link pf-m-inline");
}

#[test]
fn root_classes_custom_base_and_expanded() {
    let mut p = Props::default();
    p.class = Some("my-button".to_string());
    p.variant = Variant::Primary;
    p.expanded = true;
    let b = Button::create(p);
    assert_eq!(b.classes().to_string(), "my-button pf-m-primary pf-m-expanded");
}

#[test]
fn view_passes_attributes_through() {
    let mut p = props_with_icon(Align::End);
    p.id = "b1".to_string();
    p.style = Some("color: red".to_string());
    p.role = Some("menuitem".to_string());
    p.button_type = "submit".to_string();
    let m = Button::create(p).view();
    assert_eq!(m.id, "b1");
    assert_eq!(m.style, "color: red");
    assert_eq!(m.role, "menuitem");
    assert_eq!(m.button_type, "submit");
    assert_eq!(m.classes.to_string(), "pf-c-button");
    assert_eq!(
        describe(&m.content),
        vec!["label:Save", "icon[pf-c-button__icon pf-m-end]:fas fa-save"]
    );
}

#[test]
fn view_defaults_empty_style_and_role() {
    let m = Button::create(Props::default()).view();
    assert_eq!(m.style, "");
    assert_eq!(m.role, "");
    assert_eq!(m.button_type, "button");
}

#[test]
fn disabled_is_reflected_verbatim() {
    let mut p = Props::default();
    p.disabled = true;
    assert!(Button::create(p.clone()).view().disabled);
    p.disabled = false;
    assert!(!Button::create(p).view().disabled);
}

#[test]
fn click_emits_once_then_blurs() {
    let mut b = Button::create(Props::default());
    for _ in 0..3 {
        let r = b.update(Msg::Clicked);
        assert_eq!(r.effects, vec![Effect::Emit, Effect::Blur]);
        assert!(r.render);
    }
}

#[test]
fn change_with_equal_props_does_not_render() {
    let mut b = Button::create(props_with_icon(Align::Start));
    assert!(!b.change(props_with_icon(Align::Start)));
}

#[test]
fn change_with_different_props_renders() {
    let mut b = Button::create(props_with_icon(Align::Start));
    assert!(b.change(props_with_icon(Align::End)));
    assert_eq!(b.props.align, Align::End);
    assert!(!b.change(props_with_icon(Align::End)));
    let mut p = props_with_icon(Align::End);
    p.icon = Some(Icon { class: "fas fa-trash".to_string() });
    assert!(b.change(p));
    assert_eq!(b.props.icon.as_ref().map(|i| i.class.as_str()), Some("fas fa-trash"));
}

#[test]
fn props_equality_compares_every_field() {
    let a = props_with_icon(Align::Start);
    let mut b = a.clone();
    assert!(a == b);
    b.aria_label = Some("save".to_string());
    assert!(a != b);
    let mut c = a.clone();
    c.icon = None;
    assert!(a != c);
}

#[test]
fn custom_class_splits_and_merges() {
    let mut p = Props::default();
    p.class = Some("  wide pf-m-danger  wide ".to_string());
    p.variant = Variant::Danger;
    p.expanded = true;
    let b = Button::create(p);
    assert_eq!(b.classes().to_string(), "wide pf-m-danger pf-m-expanded");
}

#[test]
fn style_classes_extend_given_set() {
    let mut p = Props::default();
    p.variant = Variant::InlineLink;
    let b = Button::create(p);
    let r = b.add_style_classes(yew::Classes::from("base pf-m-inline"));
    assert_eq!(r.to_string(), "base pf-m-inline pf-m-link");
    let r = b.add_style_classes(yew::Classes::new());
    assert_eq!(r.to_string(), "pf-m-link pf-m-inline");
}
