//! What the tray shows: the icon picked for a theme and activation, and the
//! text of the primary menu item.

use vstd::prelude::*;

verus! {

/// The colour scheme reported by the desktop.
#[derive(Clone, Copy, Debug, PartialEq, Eq, Structural)]
pub enum Theme {
    Light,
    Dark,
    Unknown,
}

/// The four bundled tray bitmaps.
#[derive(Clone, Copy, Debug, PartialEq, Eq, Structural)]
pub enum IconKind {
    LightIcon,
    LightIconActive,
    DarkIcon,
    DarkIconActive,
}

/// Text of the primary menu item.
#[derive(Clone, Copy, Debug, PartialEq, Eq, Structural)]
pub enum Label {
    Activate,
    Deactivate,
}

/// The icon that contrasts with the theme; `None` leaves the current icon as it is.
pub open spec fn icon_spec(theme: Theme, active: bool) -> Option<IconKind> {
    match theme {
        Theme::Light => Some(if active { IconKind::DarkIconActive } else { IconKind::DarkIcon }),
        Theme::Dark => Some(if active { IconKind::LightIconActive } else { IconKind::LightIcon }),
        Theme::Unknown => None,
    }
}

pub open spec fn label_spec(active: bool) -> Label {
    if active {
        Label::Deactivate
    } else {
        Label::Activate
    }
}

pub open spec fn icon_file_spec(kind: IconKind) -> Seq<char> {
    match kind {
        IconKind::LightIcon => "light_icon.png"@,
        IconKind::LightIconActive => "light_icon_active.png"@,
        IconKind::DarkIcon => "dark_icon.png"@,
        IconKind::DarkIconActive => "dark_icon_active.png"@,
    }
}

pub open spec fn label_text_spec(label: Label) -> Seq<char> {
    match label {
        Label::Activate => "Activate"@,
        Label::Deactivate => "Deactivate"@,
    }
}

/// Picks the tray icon for a theme and an activation flag.
pub fn icon_for(theme: Theme, is_activated: bool) -> (r: Option<IconKind>)
    ensures
        r == icon_spec(theme, is_activated),
{
    match theme {
        Theme::Light => {
            if is_activated {
                Some(IconKind::DarkIconActive)
            } else {
                Some(IconKind::DarkIcon)
            }
        },
        Theme::Dark => {
            if is_activated {
                Some(IconKind::LightIconActive)
            } else {
                Some(IconKind::LightIcon)
            }
        },
        Theme::Unknown => None,
    }
}

/// Picks the primary menu item's text for an activation flag.
pub fn label_for(is_activated: bool) -> (r: Label)
    ensures
        r == label_spec(is_activated),
        r == Label::Deactivate <==> is_activated,
{
    if is_activated {
        Label::Deactivate
    } else {
        Label::Activate
    }
}

impl IconKind {
    /// The asset file that holds this bitmap.
    pub fn file_name(&self) -> (r: &'static str)
        ensures
            r@ == icon_file_spec(*self),
    {
        match self {
            IconKind::LightIcon => "light_icon.png",
            IconKind::LightIconActive => "light_icon_active.png",
            IconKind::DarkIcon => "dark_icon.png",
            IconKind::DarkIconActive => "dark_icon_active.png",
        }
    }
}

impl Label {
    pub fn text(&self) -> (r: &'static str)
        ensures
            r@ == label_text_spec(*self),
    {
        match self {
            Label::Activate => "Activate",
            Label::Deactivate => "Deactivate",
        }
    }
}

} // verus!
