use vstd::prelude::*;

verus! {

/// The part of a page sidebar's configuration that the page drives.
#[derive(Clone, Copy, Debug, PartialEq, Eq, Structural)]
pub struct Sidebar {
    pub open: bool,
}

/// The configuration of a page, as far as its own behaviour reads it.
#[derive(Clone, Copy, Debug, PartialEq, Eq, Structural)]
pub struct Props {
    pub sidebar: Option<Sidebar>,
}

impl Default for Props {
    fn default() -> (r: Self)
        ensures
            r.sidebar == None::<Sidebar>,
    {
        Props { sidebar: None }
    }
}

/// What a page receives from the host.
pub enum Msg {
    ToggleSidebar,
}

/// Whether the page header shows the button that toggles the sidebar.
pub open spec fn shows_toggle(p: Props) -> bool {
    p.sidebar is Some
}

/// The configuration after one toggle: a present sidebar flips its open
/// flag, an absent one stays absent.
pub open spec fn toggled(p: Props) -> Props {
    match p.sidebar {
        Some(s) => Props { sidebar: Some(Sidebar { open: !s.open }) },
        None => p,
    }
}

/// The configuration after `n` toggles.
pub open spec fn toggled_times(p: Props, n: nat) -> Props
    decreases n,
{
    if n == 0 {
        p
    } else {
        toggled(toggled_times(p, (n - 1) as nat))
    }
}

/// The rendered frame of a page: header, sidebar, then the main region
/// with the page's sections.
pub struct Markup {
    /// Whether the header holds the sidebar's toggle button.
    pub toggle_button: bool,
    /// The sidebar drawn between header and main region, if any.
    pub sidebar: Option<Sidebar>,
}

/// A page layout with a header, an optional sidebar and a main region.
pub struct Page {
    pub props: Props,
}

impl Page {
    pub fn create(props: Props) -> (r: Page)
        ensures
            r.props == props,
    {
        Page { props }
    }

    /// Toggling asks for a new drawing in every case.
    pub fn update(&mut self, msg: Msg) -> (r: bool)
        ensures
            final(self).props == toggled(old(self).props),
            r,
    {
        match msg {
            Msg::ToggleSidebar => self.toggle_sidebar(),
        }
        true
    }

    /// Takes a new configuration; only a different one asks for a new drawing.
    pub fn change(&mut self, props: Props) -> (r: bool)
        ensures
            r == (old(self).props != props),
            final(self).props == props,
    {
        if self.props != props {
            self.props = props;
            true
        } else {
            false
        }
    }

    pub fn view(&self) -> (r: Markup)
        ensures
            r.toggle_button == shows_toggle(self.props),
            r.sidebar == self.props.sidebar,
    {
        Markup { toggle_button: self.sidebar_button(), sidebar: self.sidebar() }
    }

    pub fn sidebar_button(&self) -> (r: bool)
        ensures
            r == shows_toggle(self.props),
    {
        match &self.props.sidebar {
            Some(_) => true,
            None => false,
        }
    }

    pub fn sidebar(&self) -> (r: Option<Sidebar>)
        ensures
            r == self.props.sidebar,
    {
        self.props.sidebar
    }

    pub fn toggle_sidebar(&mut self)
        ensures
            final(self).props == toggled(old(self).props),
    {
        match &mut self.props.sidebar {
            Some(sidebar) => sidebar.open = !sidebar.open,
            None => {},
        }
    }
}

/// A page without a sidebar shows no toggle button, and toggling it
/// changes nothing.
pub proof fn no_sidebar_toggle_is_noop(p: Props)
    requires
        p.sidebar is None,
    ensures
        !shows_toggle(p),
        toggled(p) == p,
{
}

/// A page with a sidebar shows the toggle button, and each toggle flips the
/// sidebar's open flag: after `n` toggles it differs from the configured
/// value exactly when `n` is odd.
pub proof fn toggles_alternate(p: Props, n: nat)
    requires
        p.sidebar is Some,
    ensures
        shows_toggle(p),
        toggled_times(p, n).sidebar == Some(
            Sidebar { open: p.sidebar->Some_0.open != (n % 2 == 1) },
        ),
    decreases n,
{
    if n > 0 {
        toggles_alternate(p, (n - 1) as nat);
    }
}

} // verus!
