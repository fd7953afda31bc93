//! The parts of the overlay's configuration that hold no measurements.
use vstd::prelude::*;
use vstd::string::*;

verus! {

/// A font file and the name it is registered under.
#[derive(Debug, PartialEq, Eq)]
pub struct Font {
    pub name: String,
    pub path: String,
}

impl Font {
    pub fn new(name: &str, path: &str) -> (r: Font)
        ensures
            r.name@ == name@,
            r.path@ == path@,
    {
        Font { name: name.to_owned(), path: path.to_owned() }
    }
}

/// Colours, as `#RRGGBB` strings.
#[derive(Debug, PartialEq, Eq)]
pub struct Colors {
    pub bg_color: String,
    pub text_color: String,
    pub normal_group_color: String,
    pub group_hover_color: String,
}

impl Default for Colors {
    fn default() -> (r: Colors)
        ensures
            r.bg_color@ == "#1E1E2E"@,
            r.text_color@ == "#6C7086"@,
            r.normal_group_color@ == "#313244"@,
            r.group_hover_color@ == "#B4BEFE"@,
    {
        Colors {
            bg_color: String::from_str("#1E1E2E"),
            text_color: String::from_str("#6C7086"),
            normal_group_color: String::from_str("#313244"),
            group_hover_color: String::from_str("#B4BEFE"),
        }
    }
}

/// How the window entries are laid out.
#[derive(Clone, Copy, Debug, PartialEq, Eq, Structural)]
pub enum Orientation {
    Horizontal,
    Vertical,
}

/// One part of a window entry.
#[derive(Clone, Copy, Debug, PartialEq, Eq, Structural)]
pub enum UiItem {
    Icon,
    Name,
    GroupName,
    GroupLabel,
}

/// Which parts each window entry shows, in order, and the layout.
#[derive(Debug, PartialEq, Eq)]
pub struct UiConfig {
    pub items: Vec<UiItem>,
    pub orientation: Orientation,
}

impl Default for UiConfig {
    fn default() -> (r: UiConfig)
        ensures
            r.items@ == seq![UiItem::Icon, UiItem::Name, UiItem::GroupName, UiItem::GroupLabel],
            r.orientation == Orientation::Vertical,
    {
        let mut items: Vec<UiItem> = Vec::new();
        items.push(UiItem::Icon);
        items.push(UiItem::Name);
        items.push(UiItem::GroupName);
        items.push(UiItem::GroupLabel);
        assert(items@ =~= seq![UiItem::Icon, UiItem::Name, UiItem::GroupName, UiItem::GroupLabel]);
        UiConfig { items, orientation: Orientation::Vertical }
    }
}

} // verus!
