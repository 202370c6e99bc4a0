use crate::classes::{
    add_token, add_tokens, class_tokens, class_words, classes_from, is_token,
    lemma_style_tokens, push_class,
};
use vstd::prelude::*;

verus! {

/// The visual style family of a button.
#[derive(Clone, Copy, Debug, PartialEq, Eq, Structural)]
pub enum Variant {
    Unstyled,
    Primary,
    Secondary,
    Tertiary,
    Warning,
    Danger,
    Link,
    InlineLink,
    Control,
    Plain,
}

/// The class tokens that style a variant, in order.
pub open spec fn variant_classes(v: Variant) -> Seq<Seq<char>> {
    match v {
        Variant::Unstyled => seq![],
        Variant::Primary => seq!["pf-m-primary"@],
        Variant::Secondary => seq!["pf-m-secondary"@],
        Variant::Tertiary => seq!["pf-m-tertiary"@],
        Variant::Warning => seq!["pf-m-warning"@],
        Variant::Danger => seq!["pf-m-danger"@],
        Variant::Link => seq!["pf-m-link"@],
        Variant::InlineLink => seq!["pf-m-link"@, "pf-m-inline"@],
        Variant::Control => seq!["pf-m-control"@],
        Variant::Plain => seq!["pf-m-plain"@],
    }
}

/// The views of a sequence of string slices.
pub open spec fn strs_view(v: Seq<&str>) -> Seq<Seq<char>> {
    v.map_values(|s: &str| s@)
}

/// Every class of a variant is a single token.
proof fn lemma_variant_tokens(v: Variant)
    ensures
        forall|j: int| 0 <= j < variant_classes(v).len() ==> is_token(#[trigger] variant_classes(v)[j]),
{
    lemma_style_tokens();
}

impl Variant {
    /// The class tokens of this variant.
    pub fn as_classes(&self) -> (r: Vec<&'static str>)
        ensures
            strs_view(r@) == variant_classes(*self),
    {
        let r: Vec<&'static str> = match self {
            Variant::Unstyled => vec![],
            Variant::Primary => vec!["pf-m-primary"],
            Variant::Secondary => vec!["pf-m-secondary"],
            Variant::Tertiary => vec!["pf-m-tertiary"],
            Variant::Warning => vec!["pf-m-warning"],
            Variant::Danger => vec!["pf-m-danger"],
            Variant::Link => vec!["pf-m-link"],
            Variant::InlineLink => vec!["pf-m-link", "pf-m-inline"],
            Variant::Control => vec!["pf-m-control"],
            Variant::Plain => vec!["pf-m-plain"],
        };
        assert(strs_view(r@) =~= variant_classes(*self));
        r
    }
}

impl Default for Variant {
    fn default() -> (r: Self)
        ensures
            r == Variant::Unstyled,
    {
        Variant::Unstyled
    }
}

/// Where a button's icon stands relative to its label.
#[derive(Clone, Copy, Debug, PartialEq, Eq, Structural)]
pub enum Align {
    Start,
    End,
}

impl Default for Align {
    fn default() -> (r: Self)
        ensures
            r == Align::Start,
    {
        Align::Start
    }
}

/// An icon, held as the class tokens of the glyph that draws it.
#[derive(Clone, Debug, PartialEq, Eq)]
pub struct Icon {
    pub class: String,
}

/// The configuration of a button.
#[derive(Clone, Debug)]
pub struct Props {
    pub id: String,
    pub class: Option<String>,
    pub style: Option<String>,
    pub label: String,
    pub variant: Variant,
    pub icon: Option<Icon>,
    pub align: Align,
    pub disabled: bool,
    pub aria_label: Option<String>,
    pub button_type: String,
    pub role: Option<String>,
    pub expanded: bool,
}

/// A button's configuration as mathematical values.
pub struct PropsView {
    pub id: Seq<char>,
    pub class: Option<Seq<char>>,
    pub style: Option<Seq<char>>,
    pub label: Seq<char>,
    pub variant: Variant,
    pub icon: Option<Seq<char>>,
    pub align: Align,
    pub disabled: bool,
    pub aria_label: Option<Seq<char>>,
    pub button_type: Seq<char>,
    pub role: Option<Seq<char>>,
    pub expanded: bool,
}

/// The view of an optional string.
pub open spec fn opt_view(o: Option<String>) -> Option<Seq<char>> {
    match o {
        Some(s) => Some(s@),
        None => None,
    }
}

/// The view of an optional icon: its class string.
pub open spec fn icon_view(o: Option<Icon>) -> Option<Seq<char>> {
    match o {
        Some(i) => Some(i.class@),
        None => None,
    }
}

impl View for Props {
    type V = PropsView;

    open spec fn view(&self) -> PropsView {
        PropsView {
            id: self.id@,
            class: opt_view(self.class),
            style: opt_view(self.style),
            label: self.label@,
            variant: self.variant,
            icon: icon_view(self.icon),
            align: self.align,
            disabled: self.disabled,
            aria_label: opt_view(self.aria_label),
            button_type: self.button_type@,
            role: opt_view(self.role),
            expanded: self.expanded,
        }
    }
}

fn opt_string_eq(a: &Option<String>, b: &Option<String>) -> (r: bool)
    ensures
        r == (opt_view(*a) == opt_view(*b)),
{
    match (a, b) {
        (Some(x), Some(y)) => *x == *y,
        (None, None) => true,
        _ => false,
    }
}

fn opt_icon_eq(a: &Option<Icon>, b: &Option<Icon>) -> (r: bool)
    ensures
        r == (icon_view(*a) == icon_view(*b)),
{
    match (a, b) {
        (Some(x), Some(y)) => x.class == y.class,
        (None, None) => true,
        _ => false,
    }
}

impl PartialEq for Props {
    fn eq(&self, o: &Props) -> bool {
        self.id == o.id && opt_string_eq(&self.class, &o.class) && opt_string_eq(
            &self.style,
            &o.style,
        ) && self.label == o.label && self.variant == o.variant && opt_icon_eq(
            &self.icon,
            &o.icon,
        ) && self.align == o.align && self.disabled == o.disabled && opt_string_eq(
            &self.aria_label,
            &o.aria_label,
        ) && self.button_type == o.button_type && opt_string_eq(&self.role, &o.role)
            && self.expanded == o.expanded
    }
}

impl vstd::std_specs::cmp::PartialEqSpecImpl for Props {
    open spec fn obeys_eq_spec() -> bool {
        true
    }

    open spec fn eq_spec(&self, o: &Props) -> bool {
        self@ == o@
    }
}

impl Default for Props {
    fn default() -> (r: Self)
        ensures
            r@ == (PropsView {
                id: seq![],
                class: None,
                style: None,
                label: seq![],
                variant: Variant::Unstyled,
                icon: None,
                align: Align::Start,
                disabled: false,
                aria_label: None,
                button_type: "button"@,
                role: None,
                expanded: false,
            }),
    {
        Props {
            id: String::new(),
            class: None,
            style: None,
            label: String::new(),
            variant: Variant::default(),
            icon: None,
            align: Align::default(),
            disabled: false,
            aria_label: None,
            button_type: String::from_str("button"),
            role: None,
            expanded: false,
        }
    }
}

/// A piece of a button's content.
pub enum Part {
    /// An icon, wrapped in an element with these classes.
    Icon { classes: yew::Classes, icon: Icon },
    /// The label text.
    Label(String),
}

/// A piece of a button's content as mathematical values.
pub enum PartView {
    Icon { classes: Seq<Seq<char>>, icon: Seq<char> },
    Label(Seq<char>),
}

/// The view of a piece of content.
pub open spec fn part_view(p: Part) -> PartView {
    match p {
        Part::Icon { classes, icon } => PartView::Icon {
            classes: class_tokens(classes),
            icon: icon.class@,
        },
        Part::Label(s) => PartView::Label(s@),
    }
}

/// The views of a sequence of pieces of content.
pub open spec fn parts_view(v: Seq<Part>) -> Seq<PartView> {
    v.map_values(|p: Part| part_view(p))
}

/// The classes of the element that wraps the icon.
pub open spec fn icon_classes(align: Align) -> Seq<Seq<char>> {
    seq![
        "pf-c-button__icon"@,
        match align {
            Align::Start => "pf-m-start"@,
            Align::End => "pf-m-end"@,
        },
    ]
}

/// The icon part of a button, if it has an icon.
pub open spec fn icon_part(p: PropsView) -> Option<PartView> {
    match p.icon {
        Some(i) => Some(PartView::Icon { classes: icon_classes(p.align), icon: i }),
        None => None,
    }
}

/// Icon and label, the icon first when aligned at the start and last when
/// aligned at the end.
pub open spec fn label_parts(p: PropsView) -> Seq<PartView> {
    let label = PartView::Label(p.label);
    match icon_part(p) {
        None => seq![label],
        Some(i) => match p.align {
            Align::Start => seq![i, label],
            Align::End => seq![label, i],
        },
    }
}

/// A button with an icon draws it before the label when aligned at the
/// start, and after the label when aligned at the end.
pub proof fn icon_follows_alignment(p: PropsView)
    requires
        p.icon is Some,
    ensures
        label_parts(p).len() == 2,
        p.align == Align::Start ==> label_parts(p)[0] is Icon && label_parts(p)[1] == PartView::Label(p.label),
        p.align == Align::End ==> label_parts(p)[0] == PartView::Label(p.label) && label_parts(p)[1] is Icon,
{
}

/// The classes that a button's style adds to its base classes: the
/// variant's, then the expanded marker.
pub open spec fn style_tokens(base: Seq<Seq<char>>, p: PropsView) -> Seq<Seq<char>> {
    let with_variant = add_tokens(base, variant_classes(p.variant));
    if p.expanded {
        add_token(with_variant, "pf-m-expanded"@)
    } else {
        with_variant
    }
}

/// The classes of a button's root element: the words of its own base
/// class (or the standard one), then the style's.
pub open spec fn root_class_tokens(p: PropsView) -> Seq<Seq<char>> {
    let base = match p.class {
        Some(c) => class_words(c),
        None => seq!["pf-c-button"@],
    };
    style_tokens(base, p)
}

/// The rendered root element of a button.
pub struct Markup {
    pub id: String,
    pub classes: yew::Classes,
    pub style: String,
    pub disabled: bool,
    pub button_type: String,
    pub role: String,
    /// Icon and label; the button's children follow them.
    pub content: Vec<Part>,
}

/// What a button receives from the host.
pub enum Msg {
    Clicked,
}

/// What the host is asked to do, in order.
#[derive(Clone, Copy, Debug, PartialEq, Eq, Structural)]
pub enum Effect {
    /// Hand the click event to the configured click callback.
    Emit,
    /// Take the focus away from the button's root element.
    Blur,
}

/// The answer of a component to a message.
pub struct Reaction {
    pub effects: Vec<Effect>,
    /// Whether the component must be drawn again.
    pub render: bool,
}

/// A push button.
pub struct Button {
    pub props: Props,
}

impl Button {
    pub fn create(props: Props) -> (r: Button)
        ensures
            r.props == props,
    {
        Button { props }
    }

    /// A click hands the event to the callback once, then removes the focus.
    pub fn update(&mut self, msg: Msg) -> (r: Reaction)
        ensures
            *final(self) == *old(self),
            r.effects@ == seq![Effect::Emit, Effect::Blur],
            r.render,
    {
        match msg {
            Msg::Clicked => Reaction { effects: vec![Effect::Emit, Effect::Blur], render: true },
        }
    }

    /// Takes a new configuration; only a different one asks for a new drawing.
    pub fn change(&mut self, props: Props) -> (r: bool)
        ensures
            r == (old(self).props@ != props@),
            r ==> final(self).props == props,
            !r ==> *final(self) == *old(self),
    {
        if self.props != props {
            self.props = props;
            true
        } else {
            false
        }
    }

    pub fn icon(&self) -> (r: Option<Part>)
        ensures
            match r {
                Some(p) => icon_part(self.props@) == Some(part_view(p)),
                None => icon_part(self.props@) == None::<PartView>,
            },
    {
        match &self.props.icon {
            Some(i) => {
                let mut classes = classes_from("pf-c-button__icon");
                proof {
                    lemma_style_tokens();
                    reveal_strlit("pf-c-button__icon");
                    reveal_strlit("pf-m-start");
                    reveal_strlit("pf-m-end");
                }
                match self.props.align {
                    Align::Start => push_class(&mut classes, "pf-m-start"),
                    Align::End => push_class(&mut classes, "pf-m-end"),
                }
                assert(class_tokens(classes) =~= icon_classes(self.props.align));
                let r = Part::Icon { classes, icon: Icon { class: i.class.clone() } };
                Some(r)
            },
            None => None,
        }
    }

    pub fn label(&self) -> (r: Vec<Part>)
        ensures
            parts_view(r@) == label_parts(self.props@),
    {
        let label = Part::Label(self.props.label.clone());
        let r = match self.icon() {
            None => vec![label],
            Some(i) => match self.props.align {
                Align::Start => vec![i, label],
                Align::End => vec![label, i],
            },
        };
        assert(parts_view(r@) =~= label_parts(self.props@));
        r
    }

    /// Adds the classes of the button's style to `classes`.
    pub fn add_style_classes(&self, classes: yew::Classes) -> (r: yew::Classes)
        ensures
            class_tokens(r) == style_tokens(class_tokens(classes), self.props@),
    {
        let mut r = classes;
        let variant = self.props.variant.as_classes();
        let ghost base = class_tokens(r);
        proof {
            lemma_style_tokens();
            lemma_variant_tokens(self.props.variant);
            assert forall|j: int| 0 <= j < variant@.len() implies is_token(
                #[trigger] variant@[j]@,
            ) by {
                assert(variant@[j]@ == strs_view(variant@)[j]);
            }
        }
        let mut i: usize = 0;
        while i < variant.len()
            invariant
                i <= variant@.len(),
                strs_view(variant@) == variant_classes(self.props.variant),
                forall|j: int| 0 <= j < variant@.len() ==> is_token(#[trigger] variant@[j]@),
                class_tokens(r) == add_tokens(base, strs_view(variant@).take(i as int)),
            decreases variant@.len() - i,
        {
            push_class(&mut r, variant[i]);
            proof {
                let t = strs_view(variant@).take(i + 1);
                assert(t.drop_last() =~= strs_view(variant@).take(i as int));
                assert(t.last() == variant@[i as int]@);
            }
            i = i + 1;
        }
        assert(strs_view(variant@).take(i as int) =~= variant_classes(self.props.variant));
        if self.props.expanded {
            push_class(&mut r, "pf-m-expanded");
        }
        r
    }

    /// The classes of the button's root element.
    pub fn classes(&self) -> (r: yew::Classes)
        ensures
            class_tokens(r) == root_class_tokens(self.props@),
    {
        let base = match &self.props.class {
            Some(c) => classes_from(c.as_str()),
            None => classes_from("pf-c-button"),
        };
        proof {
            lemma_style_tokens();
        }
        self.add_style_classes(base)
    }

    pub fn view(&self) -> (r: Markup)
        ensures
            r.id@ == self.props.id@,
            class_tokens(r.classes) == root_class_tokens(self.props@),
            r.style@ == match self.props.style {
                Some(s) => s@,
                None => Seq::<char>::empty(),
            },
            r.disabled == self.props.disabled,
            r.button_type@ == self.props.button_type@,
            r.role@ == match self.props.role {
                Some(s) => s@,
                None => Seq::<char>::empty(),
            },
            parts_view(r.content@) == label_parts(self.props@),
    {
        let style = match &self.props.style {
            Some(s) => s.clone(),
            None => String::new(),
        };
        let role = match &self.props.role {
            Some(s) => s.clone(),
            None => String::new(),
        };
        Markup {
            id: self.props.id.clone(),
            classes: self.classes(),
            style,
            disabled: self.props.disabled,
            button_type: self.props.button_type.clone(),
            role,
            content: self.label(),
        }
    }
}

} // verus!
