//! Secondary-window ("viewport") descriptors: identifiers, a sparse builder
//! of optional window properties, and one-shot window commands.
//!
//! Every optional builder field set to `Some` means "apply this value"; `None`
//! means "no change from the previous state". A delta with every optional
//! field unset merges into any builder without changing it.

use vstd::prelude::*;
use vstd::string::StringExecFns;
use crate::geom::{Pos, Size};
use crate::numfmt::{dec_digits, dec_string};

verus! {

/// An opaque handle identifying a window; zero is the main/root window.
#[derive(Default, Debug, Hash, Clone, Copy, PartialEq, Eq, Structural)]
pub struct ViewportId(pub u64);

impl ViewportId {
    /// The identifier of the main viewport.
    pub fn main_id() -> (r: Self)
        ensures
            r.0 == 0,
    {
        ViewportId(0)
    }

    /// The identifier written out in decimal.
    pub fn text(&self) -> (r: String)
        ensures
            r@ == dec_digits(self.0 as nat),
    {
        dec_string(self.0)
    }
}

/// A viewport identifier together with the identifier of its parent.
#[derive(Default, Debug, Hash, Clone, Copy, PartialEq, Eq, Structural)]
pub struct ViewportIdPair {
    pub this: ViewportId,
    pub parent: ViewportId,
}

impl ViewportIdPair {
    pub fn new(this: ViewportId, parent: ViewportId) -> (r: Self)
        ensures
            r.this == this && r.parent == parent,
    {
        ViewportIdPair { this, parent }
    }

    /// The pair of the main viewport, which is its own parent.
    pub fn main_pair() -> (r: Self)
        ensures
            r.this.0 == 0 && r.parent.0 == 0,
    {
        ViewportIdPair { this: ViewportId(0), parent: ViewportId(0) }
    }
}

/// A window icon: raw pixel bytes with their dimensions.
#[derive(Clone, Debug, PartialEq, Eq)]
pub struct Icon {
    pub width: u32,
    pub height: u32,
    pub rgba: Vec<u8>,
}

/// A sparse description of a secondary window's desired properties.
/// Each `Some` field is applied by the window backend; each `None` field
/// means "no change". Absence is a strict no-op, never a reset.
#[verifier::ext_equal]
#[derive(Clone, Debug, PartialEq, Eq)]
pub struct ViewportBuilder {
    pub id: u64,
    pub title: String,
    pub name: Option<(String, String)>,
    pub position: Option<Option<Pos>>,
    pub inner_size: Option<Option<Size>>,
    pub fullscreen: Option<bool>,
    pub maximized: Option<bool>,
    pub resizable: Option<bool>,
    pub transparent: Option<bool>,
    pub decorations: Option<bool>,
    pub icon: Option<Option<Icon>>,
    pub active: Option<bool>,
    pub visible: Option<bool>,
    pub title_hidden: Option<bool>,
    pub titlebar_transparent: Option<bool>,
    pub fullsize_content_view: Option<bool>,
    pub min_inner_size: Option<Option<Size>>,
    pub max_inner_size: Option<Option<Size>>,
    pub drag_and_drop: Option<bool>,
    pub close_button: Option<bool>,
    pub minimize_button: Option<bool>,
    pub maximize_button: Option<bool>,
    pub hittest: Option<bool>,
}

/// Whether a builder leaves every optional property unset.
pub open spec fn is_unset(b: ViewportBuilder) -> bool {
    &&& b.name is None
    &&& b.position is None
    &&& b.inner_size is None
    &&& b.fullscreen is None
    &&& b.maximized is None
    &&& b.resizable is None
    &&& b.transparent is None
    &&& b.decorations is None
    &&& b.icon is None
    &&& b.active is None
    &&& b.visible is None
    &&& b.title_hidden is None
    &&& b.titlebar_transparent is None
    &&& b.fullsize_content_view is None
    &&& b.min_inner_size is None
    &&& b.max_inner_size is None
    &&& b.drag_and_drop is None
    &&& b.close_button is None
    &&& b.minimize_button is None
    &&& b.maximize_button is None
    &&& b.hittest is None
}

/// The result of applying a delta to a base description: every optional
/// field the delta sets wins; every unset field keeps the base's value.
/// The identity and title of the base are kept.
pub open spec fn spec_merge(base: ViewportBuilder, delta: ViewportBuilder) -> ViewportBuilder {
    ViewportBuilder {
        id: base.id,
        title: base.title,
        name: if delta.name is Some {
            delta.name
        } else {
            base.name
        },
        position: if delta.position is Some {
            delta.position
        } else {
            base.position
        },
        inner_size: if delta.inner_size is Some {
            delta.inner_size
        } else {
            base.inner_size
        },
        fullscreen: if delta.fullscreen is Some {
            delta.fullscreen
        } else {
            base.fullscreen
        },
        maximized: if delta.maximized is Some {
            delta.maximized
        } else {
            base.maximized
        },
        resizable: if delta.resizable is Some {
            delta.resizable
        } else {
            base.resizable
        },
        transparent: if delta.transparent is Some {
            delta.transparent
        } else {
            base.transparent
        },
        decorations: if delta.decorations is Some {
            delta.decorations
        } else {
            base.decorations
        },
        icon: if delta.icon is Some {
            delta.icon
        } else {
            base.icon
        },
        active: if delta.active is Some {
            delta.active
        } else {
            base.active
        },
        visible: if delta.visible is Some {
            delta.visible
        } else {
            base.visible
        },
        title_hidden: if delta.title_hidden is Some {
            delta.title_hidden
        } else {
            base.title_hidden
        },
        titlebar_transparent: if delta.titlebar_transparent is Some {
            delta.titlebar_transparent
        } else {
            base.titlebar_transparent
        },
        fullsize_content_view: if delta.fullsize_content_view is Some {
            delta.fullsize_content_view
        } else {
            base.fullsize_content_view
        },
        min_inner_size: if delta.min_inner_size is Some {
            delta.min_inner_size
        } else {
            base.min_inner_size
        },
        max_inner_size: if delta.max_inner_size is Some {
            delta.max_inner_size
        } else {
            base.max_inner_size
        },
        drag_and_drop: if delta.drag_and_drop is Some {
            delta.drag_and_drop
        } else {
            base.drag_and_drop
        },
        close_button: if delta.close_button is Some {
            delta.close_button
        } else {
            base.close_button
        },
        minimize_button: if delta.minimize_button is Some {
            delta.minimize_button
        } else {
            base.minimize_button
        },
        maximize_button: if delta.maximize_button is Some {
            delta.maximize_button
        } else {
            base.maximize_button
        },
        hittest: if delta.hittest is Some {
            delta.hittest
        } else {
            base.hittest
        },
    }
}

/// Applying a delta that sets nothing yields the base unchanged:
/// an all-unset builder is the identity of `merge`.
pub proof fn lemma_empty_merge_identity(base: ViewportBuilder, delta: ViewportBuilder)
    requires
        is_unset(delta),
    ensures
        spec_merge(base, delta) == base,
{
    assert(spec_merge(base, delta) =~= base);
}

impl ViewportBuilder {
    /// Defaults suitable for an interactive, resizable window.
    pub fn new(id: u64) -> (r: Self)
        ensures
            r.id == id,
            r.title@ == "Dummy egui viewport"@,
            r.name is None,
            r.position is None,
            (r.inner_size matches Some(Some(s)) && s.x.as_micros() == 300_000_000
                && s.y.as_micros() == 200_000_000),
            r.fullscreen is None,
            r.maximized is None,
            r.resizable == Some(true),
            r.transparent == Some(true),
            r.decorations == Some(true),
            r.icon is None,
            r.active == Some(true),
            r.visible == Some(true),
            r.title_hidden is None,
            r.titlebar_transparent is None,
            r.fullsize_content_view is None,
            r.min_inner_size is None,
            r.max_inner_size is None,
            r.drag_and_drop == Some(true),
            r.close_button == Some(true),
            r.minimize_button == Some(true),
            r.maximize_button == Some(true),
            r.hittest == Some(true),
    {
        ViewportBuilder {
            id,
            title: String::from_str("Dummy egui viewport"),
            name: None,
            position: None,
            inner_size: Some(
                Some(Size { x: crate::fixed::Fixed::from_int(300), y: crate::fixed::Fixed::from_int(200) }),
            ),
            fullscreen: None,
            maximized: None,
            resizable: Some(true),
            transparent: Some(true),
            decorations: Some(true),
            icon: None,
            active: Some(true),
            visible: Some(true),
            title_hidden: None,
            titlebar_transparent: None,
            fullsize_content_view: None,
            min_inner_size: None,
            max_inner_size: None,
            drag_and_drop: Some(true),
            close_button: Some(true),
            minimize_button: Some(true),
            maximize_button: Some(true),
            hittest: Some(true),
        }
    }

    /// An all-unset description, used to express a "no change" delta.
    pub fn empty(id: u64) -> (r: Self)
        ensures
            r.id == id,
            r.title@ == "Dummy egui viewport"@,
            is_unset(r),
    {
        ViewportBuilder {
            id,
            title: String::from_str("Dummy egui viewport"),
            name: None,
            position: None,
            inner_size: None,
            fullscreen: None,
            maximized: None,
            resizable: None,
            transparent: None,
            decorations: None,
            icon: None,
            active: None,
            visible: None,
            title_hidden: None,
            titlebar_transparent: None,
            fullsize_content_view: None,
            min_inner_size: None,
            max_inner_size: None,
            drag_and_drop: None,
            close_button: None,
            minimize_button: None,
            maximize_button: None,
            hittest: None,
        }
    }

    /// Apply a delta on top of this description; see `spec_merge`.
    #[verifier::rlimit(60)]
    pub fn merge(self, delta: ViewportBuilder) -> (r: Self)
        ensures
            r == spec_merge(self, delta),
    {
        ViewportBuilder {
            id: self.id,
            title: self.title,
            name: if delta.name.is_some() {
                delta.name
            } else {
                self.name
            },
            position: if delta.position.is_some() {
                delta.position
            } else {
                self.position
            },
            inner_size: if delta.inner_size.is_some() {
                delta.inner_size
            } else {
                self.inner_size
            },
            fullscreen: if delta.fullscreen.is_some() {
                delta.fullscreen
            } else {
                self.fullscreen
            },
            maximized: if delta.maximized.is_some() {
                delta.maximized
            } else {
                self.maximized
            },
            resizable: if delta.resizable.is_some() {
                delta.resizable
            } else {
                self.resizable
            },
            transparent: if delta.transparent.is_some() {
                delta.transparent
            } else {
                self.transparent
            },
            decorations: if delta.decorations.is_some() {
                delta.decorations
            } else {
                self.decorations
            },
            icon: if delta.icon.is_some() {
                delta.icon
            } else {
                self.icon
            },
            active: if delta.active.is_some() {
                delta.active
            } else {
                self.active
            },
            visible: if delta.visible.is_some() {
                delta.visible
            } else {
                self.visible
            },
            title_hidden: if delta.title_hidden.is_some() {
                delta.title_hidden
            } else {
                self.title_hidden
            },
            titlebar_transparent: if delta.titlebar_transparent.is_some() {
                delta.titlebar_transparent
            } else {
                self.titlebar_transparent
            },
            fullsize_content_view: if delta.fullsize_content_view.is_some() {
                delta.fullsize_content_view
            } else {
                self.fullsize_content_view
            },
            min_inner_size: if delta.min_inner_size.is_some() {
                delta.min_inner_size
            } else {
                self.min_inner_size
            },
            max_inner_size: if delta.max_inner_size.is_some() {
                delta.max_inner_size
            } else {
                self.max_inner_size
            },
            drag_and_drop: if delta.drag_and_drop.is_some() {
                delta.drag_and_drop
            } else {
                self.drag_and_drop
            },
            close_button: if delta.close_button.is_some() {
                delta.close_button
            } else {
                self.close_button
            },
            minimize_button: if delta.minimize_button.is_some() {
                delta.minimize_button
            } else {
                self.minimize_button
            },
            maximize_button: if delta.maximize_button.is_some() {
                delta.maximize_button
            } else {
                self.maximize_button
            },
            hittest: if delta.hittest.is_some() {
                delta.hittest
            } else {
                self.hittest
            },
        }
    }

    /// Sets the initial title of the window in the title bar.
    pub fn with_title(self, title: String) -> (r: Self)
        ensures
            r == (ViewportBuilder { title, ..self }),
    {
        ViewportBuilder { title, ..self }
    }

    /// Sets whether the window should have a border, a title bar, etc.
    pub fn with_decorations(self, decorations: bool) -> (r: Self)
        ensures
            r == (ViewportBuilder { decorations: Some(decorations), ..self }),
    {
        ViewportBuilder { decorations: Some(decorations), ..self }
    }

    /// Sets whether the window should be put into fullscreen upon creation.
    pub fn with_fullscreen(self, fullscreen: bool) -> (r: Self)
        ensures
            r == (ViewportBuilder { fullscreen: Some(fullscreen), ..self }),
    {
        ViewportBuilder { fullscreen: Some(fullscreen), ..self }
    }

    /// Request that the window is maximized upon creation.
    pub fn with_maximized(self, maximized: bool) -> (r: Self)
        ensures
            r == (ViewportBuilder { maximized: Some(maximized), ..self }),
    {
        ViewportBuilder { maximized: Some(maximized), ..self }
    }

    /// Sets whether the window is resizable or not.
    pub fn with_resizable(self, resizable: bool) -> (r: Self)
        ensures
            r == (ViewportBuilder { resizable: Some(resizable), ..self }),
    {
        ViewportBuilder { resizable: Some(resizable), ..self }
    }

    /// Sets whether the background of the window should be transparent.
    pub fn with_transparent(self, transparent: bool) -> (r: Self)
        ensures
            r == (ViewportBuilder { transparent: Some(transparent), ..self }),
    {
        ViewportBuilder { transparent: Some(transparent), ..self }
    }

    /// Sets the window icon.
    pub fn with_window_icon(self, icon: Option<Icon>) -> (r: Self)
        ensures
            r == (ViewportBuilder { icon: Some(icon), ..self }),
    {
        ViewportBuilder { icon: Some(icon), ..self }
    }

    /// Whether the window will be initially focused or not.
    pub fn with_active(self, active: bool) -> (r: Self)
        ensures
            r == (ViewportBuilder { active: Some(active), ..self }),
    {
        ViewportBuilder { active: Some(active), ..self }
    }

    /// Sets whether the window will be initially visible or hidden.
    pub fn with_visible(self, visible: bool) -> (r: Self)
        ensures
            r == (ViewportBuilder { visible: Some(visible), ..self }),
    {
        ViewportBuilder { visible: Some(visible), ..self }
    }

    /// Hides the window title.
    pub fn with_title_hidden(self, title_hidden: bool) -> (r: Self)
        ensures
            r == (ViewportBuilder { title_hidden: Some(title_hidden), ..self }),
    {
        ViewportBuilder { title_hidden: Some(title_hidden), ..self }
    }

    /// Makes the titlebar transparent, letting the content appear behind it.
    pub fn with_titlebar_transparent(self, value: bool) -> (r: Self)
        ensures
            r == (ViewportBuilder { titlebar_transparent: Some(value), ..self }),
    {
        ViewportBuilder { titlebar_transparent: Some(value), ..self }
    }

    /// Makes the window content appear behind the titlebar.
    pub fn with_fullsize_content_view(self, value: bool) -> (r: Self)
        ensures
            r == (ViewportBuilder { fullsize_content_view: Some(value), ..self }),
    {
        ViewportBuilder { fullsize_content_view: Some(value), ..self }
    }

    /// Requests the window to be of specific dimensions.
    pub fn with_inner_size(self, value: Option<Size>) -> (r: Self)
        ensures
            r == (ViewportBuilder { inner_size: Some(value), ..self }),
    {
        ViewportBuilder { inner_size: Some(value), ..self }
    }

    /// Sets the minimum dimensions a window can have.
    pub fn with_min_inner_size(self, value: Option<Size>) -> (r: Self)
        ensures
            r == (ViewportBuilder { min_inner_size: Some(value), ..self }),
    {
        ViewportBuilder { min_inner_size: Some(value), ..self }
    }

    /// Sets the maximum dimensions a window can have.
    pub fn with_max_inner_size(self, value: Option<Size>) -> (r: Self)
        ensures
            r == (ViewportBuilder { max_inner_size: Some(value), ..self }),
    {
        ViewportBuilder { max_inner_size: Some(value), ..self }
    }

    /// Whether the close button is shown.
    pub fn with_close_button(self, value: bool) -> (r: Self)
        ensures
            r == (ViewportBuilder { close_button: Some(value), ..self }),
    {
        ViewportBuilder { close_button: Some(value), ..self }
    }

    /// Whether the minimize button is shown.
    pub fn with_minimize_button(self, value: bool) -> (r: Self)
        ensures
            r == (ViewportBuilder { minimize_button: Some(value), ..self }),
    {
        ViewportBuilder { minimize_button: Some(value), ..self }
    }

    /// Whether the maximize button is shown.
    pub fn with_maximize_button(self, value: bool) -> (r: Self)
        ensures
            r == (ViewportBuilder { maximize_button: Some(value), ..self }),
    {
        ViewportBuilder { maximize_button: Some(value), ..self }
    }

    /// Whether drag-and-drop is enabled.
    pub fn with_drag_and_drop(self, value: bool) -> (r: Self)
        ensures
            r == (ViewportBuilder { drag_and_drop: Some(value), ..self }),
    {
        ViewportBuilder { drag_and_drop: Some(value), ..self }
    }

    /// Sets the initial outer position of the window.
    pub fn with_position(self, value: Option<Pos>) -> (r: Self)
        ensures
            r == (ViewportBuilder { position: Some(value), ..self }),
    {
        ViewportBuilder { position: Some(value), ..self }
    }

    /// Build the window with the given application identifier and instance.
    pub fn with_name(self, id: String, instance: String) -> (r: Self)
        ensures
            r == (ViewportBuilder { name: Some((id, instance)), ..self }),
    {
        ViewportBuilder { name: Some((id, instance)), ..self }
    }

    /// Whether the window accepts pointer hit tests.
    pub fn with_hittest(self, value: bool) -> (r: Self)
        ensures
            r == (ViewportBuilder { hittest: Some(value), ..self }),
    {
        ViewportBuilder { hittest: Some(value), ..self }
    }
}

/// A one-shot, fire-and-forget instruction applied to an existing window.
#[derive(Clone, Debug, PartialEq, Eq)]
pub enum ViewportCommand {
    Title(String),
    Transparent(bool),
    Visible(bool),
    Drag,
    OuterPosition(Pos),
    /// Should be bigger than zero.
    InnerSize(Size),
    /// Should be bigger than zero.
    MinInnerSize(Option<Size>),
    /// Should be bigger than zero.
    MaxInnerSize(Option<Size>),
    ResizeIncrements(Option<Size>),
    /// Top, bottom, right, left.
    Resize(bool, bool, bool, bool),
    Resizable(bool),
    EnableButtons { close: bool, minimized: bool, maximize: bool },
    Minimized(bool),
    Maximized(bool),
    Fullscreen(bool),
    Decorations(bool),
    /// 0 = normal, 1 = always on bottom, 2 = always on top.
    WindowLevel(u8),
    WindowIcon(Option<Icon>),
    IMEPosition(Pos),
    IMEAllowed(bool),
    /// 0 = normal, 1 = password, 2 = terminal.
    IMEPurpose(u8),
    /// 0 = informational, 1 = critical.
    RequestUserAttention(Option<u8>),
    /// 0 = light, 1 = dark.
    SetTheme(Option<u8>),
    ContentProtected(bool),
    CursorPosition(Pos),
    /// 0 = none, 1 = confined, 2 = locked.
    CursorGrab(u8),
    CursorVisible(bool),
    CursorHitTest(bool),
}

} // verus!
