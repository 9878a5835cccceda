//! Builders that only hand out validated actions and updates.

use vstd::prelude::*;

use crate::sdk::types::{
    PluginDropdown, PluginDropdownItem, PluginRowAction, PluginStyle, PluginTypedRowAction,
    PluginUpdate,
};
use crate::sdk::validators::{
    item_verdict, typed_action_verdict, url_verdict, validate_command, validate_custom_payload,
    validate_dropdown_item, validate_label, validate_url, ValidationError,
};
use crate::text::{blank, is_blank};

verus! {

/// Constructors for validated row actions: every action they hand out is
/// one that `validate_typed_action` accepts.
pub struct ActionBuilder;

impl ActionBuilder {
    /// A `RunCommand` action; refuses a blank command.
    pub fn run_command(command: &str) -> (r: Result<PluginRowAction, ValidationError>)
        ensures
            match r {
                Ok(a) => !is_blank(command@) && (a matches PluginRowAction::Typed(
                    PluginTypedRowAction::RunCommand { command: c },
                ) && c@ == command@) && (a matches PluginRowAction::Typed(t) && typed_action_verdict(
                    t,
                ) is Ok),
                Err(e) => is_blank(command@) && e == ValidationError::EmptyCommand,
            },
    {
        validate_command(command)?;
        Ok(PluginRowAction::Typed(PluginTypedRowAction::RunCommand { command: String::from_str(command) }))
    }

    /// An `OpenUrl` action; refuses anything but `http://` and `https://`.
    pub fn open_url(url: &str) -> (r: Result<PluginRowAction, ValidationError>)
        ensures
            match r {
                Ok(a) => url_verdict(url@) is Ok && (a matches PluginRowAction::Typed(
                    PluginTypedRowAction::OpenUrl { url: u },
                ) && u@ == url@) && (a matches PluginRowAction::Typed(t) && typed_action_verdict(
                    t,
                ) is Ok),
                Err(e) => url_verdict(url@) == Err::<(), ValidationError>(e),
            },
    {
        validate_url(url)?;
        Ok(PluginRowAction::Typed(PluginTypedRowAction::OpenUrl { url: String::from_str(url) }))
    }

    /// A `CopyText` action; refuses blank text.
    pub fn copy_text(text: &str) -> (r: Result<PluginRowAction, ValidationError>)
        ensures
            match r {
                Ok(a) => !is_blank(text@) && (a matches PluginRowAction::Typed(
                    PluginTypedRowAction::CopyText { text: t },
                ) && t@ == text@) && (a matches PluginRowAction::Typed(x) && typed_action_verdict(
                    x,
                ) is Ok),
                Err(e) => is_blank(text@) && e == ValidationError::EmptyText,
            },
    {
        if blank(text) {
            return Err(ValidationError::EmptyText);
        }
        Ok(PluginRowAction::Typed(PluginTypedRowAction::CopyText { text: String::from_str(text) }))
    }

    /// A `Custom` action whose payload goes back to the plugin; refuses a
    /// blank payload.
    pub fn custom(payload: &str) -> (r: Result<PluginRowAction, ValidationError>)
        ensures
            match r {
                Ok(a) => !is_blank(payload@) && (a matches PluginRowAction::Typed(
                    PluginTypedRowAction::Custom { payload: p },
                ) && p@ == payload@) && (a matches PluginRowAction::Typed(t) && typed_action_verdict(
                    t,
                ) is Ok),
                Err(e) => is_blank(payload@) && e == ValidationError::EmptyPayload,
            },
    {
        validate_custom_payload(payload)?;
        Ok(PluginRowAction::Typed(PluginTypedRowAction::Custom { payload: String::from_str(payload) }))
    }

    /// The action that asks the host for an immediate refresh.
    pub fn refresh_now() -> (r: PluginRowAction)
        ensures
            r matches PluginRowAction::Typed(PluginTypedRowAction::RefreshNow),
    {
        PluginRowAction::Typed(PluginTypedRowAction::RefreshNow)
    }
}

/// Every row of the dropdown, if there is one, passes `item_verdict`.
pub open spec fn dropdown_rows_valid(dropdown: Option<PluginDropdown>) -> bool {
    match dropdown {
        Some(d) => forall|i: int| 0 <= i < d.items@.len() ==> (#[trigger] item_verdict(d.items@[i])) is Ok,
        None => true,
    }
}

/// An update that `PluginUpdateBuilder::build` accepts: a non-blank label
/// and only valid dropdown rows.
pub open spec fn update_valid(u: PluginUpdate) -> bool {
    !is_blank(u.label@) && dropdown_rows_valid(u.dropdown)
}

/// Composes a `PluginUpdate` and validates it on `build`.
pub struct PluginUpdateBuilder {
    label: String,
    tooltip: Option<String>,
    visible: bool,
    dropdown: Option<PluginDropdown>,
    style: Option<PluginStyle>,
}

impl PluginUpdateBuilder {
    /// The update that `build` would return, before validation.
    pub closed spec fn pending(&self) -> PluginUpdate {
        PluginUpdate {
            label: self.label,
            tooltip: self.tooltip,
            visible: self.visible,
            dropdown: self.dropdown,
            style: self.style,
        }
    }

    /// Starts an update with `label`, visible, with nothing else set.
    pub fn new(label: &str) -> (r: Self)
        ensures
            r.pending().label@ == label@,
            r.pending().tooltip is None,
            r.pending().visible,
            r.pending().dropdown is None,
            r.pending().style is None,
    {
        PluginUpdateBuilder {
            label: String::from_str(label),
            tooltip: None,
            visible: true,
            dropdown: None,
            style: None,
        }
    }

    /// Sets the tooltip.
    pub fn tooltip(self, tooltip: &str) -> (r: Self)
        ensures
            r.pending().tooltip matches Some(t) && t@ == tooltip@,
            r.pending().label == self.pending().label,
            r.pending().visible == self.pending().visible,
            r.pending().dropdown == self.pending().dropdown,
            r.pending().style == self.pending().style,
    {
        PluginUpdateBuilder { tooltip: Some(String::from_str(tooltip)), ..self }
    }

    /// Sets whether the module is shown.
    pub fn visible(self, visible: bool) -> (r: Self)
        ensures
            r.pending() == (PluginUpdate { visible, ..self.pending() }),
    {
        PluginUpdateBuilder { visible, ..self }
    }

    /// Sets the dropdown.
    pub fn dropdown(self, dropdown: PluginDropdown) -> (r: Self)
        ensures
            r.pending() == (PluginUpdate { dropdown: Some(dropdown), ..self.pending() }),
    {
        PluginUpdateBuilder { dropdown: Some(dropdown), ..self }
    }

    /// Sets the style.
    pub fn style(self, style: PluginStyle) -> (r: Self)
        ensures
            r.pending() == (PluginUpdate { style: Some(style), ..self.pending() }),
    {
        PluginUpdateBuilder { style: Some(style), ..self }
    }

    /// The update, if its label is not blank and every dropdown row is
    /// valid; `EmptyLabel` otherwise.
    pub fn build(self) -> (r: Result<PluginUpdate, ValidationError>)
        ensures
            match r {
                Ok(u) => u == self.pending() && update_valid(u),
                Err(e) => e == ValidationError::EmptyLabel && !update_valid(self.pending()),
            },
    {
        validate_label(self.label.as_str())?;
        if self.dropdown.is_some() {
            let dropdown = self.dropdown.as_ref().unwrap();
            {
                let n = dropdown.items.len();
                let mut i: usize = 0;
                while i < n
                    invariant
                        n == dropdown.items@.len(),
                        self.dropdown == Some(*dropdown),
                        i <= n,
                        forall|k: int| 0 <= k < i ==> (#[trigger] item_verdict(dropdown.items@[k])) is Ok,
                    decreases n - i,
                {
                    let verdict = validate_dropdown_item(&dropdown.items[i]);
                    if verdict.is_err() {
                        assert(!dropdown_rows_valid(self.dropdown)) by {
                            assert(self.dropdown == Some(*dropdown));
                            assert(item_verdict(dropdown.items@[i as int]) is Err);
                        }
                        return Err(ValidationError::EmptyLabel);
                    }
                    i = i + 1;
                }
            }
        }
        Ok(PluginUpdate {
            label: self.label,
            tooltip: self.tooltip,
            visible: self.visible,
            dropdown: self.dropdown,
            style: self.style,
        })
    }
}

/// Composes a `PluginDropdown`.
pub struct DropdownBuilder {
    title: Option<String>,
    title_xalign_bits: Option<u32>,
    empty_label: Option<String>,
    items: Vec<PluginDropdownItem>,
}

impl DropdownBuilder {
    /// The dropdown that `build` returns.
    pub closed spec fn pending(&self) -> PluginDropdown {
        PluginDropdown {
            title: self.title,
            title_xalign_bits: self.title_xalign_bits,
            empty_label: self.empty_label,
            items: self.items,
        }
    }

    /// An empty dropdown: no title, alignment, empty label or rows.
    pub fn new() -> (r: Self)
        ensures
            r.pending().title is None,
            r.pending().title_xalign_bits is None,
            r.pending().empty_label is None,
            r.pending().items@.len() == 0,
    {
        DropdownBuilder { title: None, title_xalign_bits: None, empty_label: None, items: Vec::new() }
    }

    /// Sets the header title.
    pub fn title(self, title: &str) -> (r: Self)
        ensures
            r.pending().title matches Some(t) && t@ == title@,
            r.pending().title_xalign_bits == self.pending().title_xalign_bits,
            r.pending().empty_label == self.pending().empty_label,
            r.pending().items == self.pending().items,
    {
        DropdownBuilder { title: Some(String::from_str(title)), ..self }
    }

    /// Sets the title alignment from the bits of an `f32` that the caller
    /// has already clamped to `0.0..=1.0`.
    pub fn title_xalign_bits(self, bits: u32) -> (r: Self)
        ensures
            r.pending() == (PluginDropdown { title_xalign_bits: Some(bits), ..self.pending() }),
    {
        DropdownBuilder { title_xalign_bits: Some(bits), ..self }
    }

    /// Sets the text shown when there are no rows.
    pub fn empty_label(self, empty_label: &str) -> (r: Self)
        ensures
            r.pending().empty_label matches Some(t) && t@ == empty_label@,
            r.pending().title == self.pending().title,
            r.pending().title_xalign_bits == self.pending().title_xalign_bits,
            r.pending().items == self.pending().items,
    {
        DropdownBuilder { empty_label: Some(String::from_str(empty_label)), ..self }
    }

    /// Appends a row.
    pub fn item(self, item: PluginDropdownItem) -> (r: Self)
        ensures
            r.pending().items@ == self.pending().items@.push(item),
            r.pending().title == self.pending().title,
            r.pending().title_xalign_bits == self.pending().title_xalign_bits,
            r.pending().empty_label == self.pending().empty_label,
    {
        let mut b = self;
        b.items.push(item);
        b
    }

    /// Appends a separator row: empty label, no description, no action.
    pub fn separator(self) -> (r: Self)
        ensures
            r.pending().items@.len() == self.pending().items@.len() + 1,
            forall|i: int| 0 <= i < self.pending().items@.len() ==> r.pending().items@[i] == self.pending().items@[i],
            r.pending().items@.last().label@.len() == 0,
            r.pending().items@.last().description is None,
            r.pending().items@.last().action is None,
            r.pending().title == self.pending().title,
            r.pending().title_xalign_bits == self.pending().title_xalign_bits,
            r.pending().empty_label == self.pending().empty_label,
    {
        let mut b = self;
        b.items.push(PluginDropdownItem { label: String::new(), description: None, action: None });
        b
    }

    /// The dropdown.
    pub fn build(self) -> (r: PluginDropdown)
        ensures
            r == self.pending(),
    {
        PluginDropdown {
            title: self.title,
            title_xalign_bits: self.title_xalign_bits,
            empty_label: self.empty_label,
            items: self.items,
        }
    }
}

} // verus!
