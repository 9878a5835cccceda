//! The bar module's decisions: CSS class names, the layout of a plugin's
//! dropdown, and the state machine that turns messages and runtime results
//! into effects on the widgets.

use vstd::prelude::*;

use crate::config::{ClickAction, PluginDefinition};
use crate::sdk::types::{clamp_percent, opt_view};
use crate::shell::policy::{row_action_allowed, validate_row_action};
use crate::shell::registry::{
    action_for, configured_action, PluginAction, PluginActionResult, PluginDropdown,
    PluginDropdownItem, PluginRowAction, PluginStyle, PluginUpdate,
};
use crate::text::{blank, is_blank, owned, str_eq, trim, trimmed};

verus! {

/// An ASCII letter or digit.
pub open spec fn is_ascii_alnum(c: char) -> bool {
    ('a' <= c && c <= 'z') || ('A' <= c && c <= 'Z') || ('0' <= c && c <= '9')
}

/// A character allowed in a plugin-supplied CSS class.
pub open spec fn is_class_char(c: char) -> bool {
    is_ascii_alnum(c) || c == '-' || c == '_'
}

/// The CSS class a plugin asks for: the trimmed text, if it is non-empty
/// and made only of ASCII letters, digits, `-` and `_`.
pub open spec fn css_class_name(input: Seq<char>) -> Option<Seq<char>> {
    let t = trimmed(input);
    if t.len() > 0 && forall|i: int| 0 <= i < t.len() ==> is_class_char(#[trigger] t[i]) {
        Some(t)
    } else {
        None
    }
}

/// Validates a plugin-supplied CSS class name.
pub fn normalize_css_class(input: &str) -> (r: Option<String>)
    ensures
        match r {
            Some(c) => css_class_name(input@) == Some(c@),
            None => css_class_name(input@) is None,
        },
{
    let t = trim(input);
    let n = t.unicode_len();
    if n == 0 {
        return None;
    }
    let mut i: usize = 0;
    while i < n
        invariant
            n == t@.len(),
            n > 0,
            t@ == trimmed(input@),
            i <= n,
            forall|k: int| 0 <= k < i ==> is_class_char(#[trigger] t@[k]),
        decreases n - i,
    {
        let c = t.get_char(i);
        let ok = ('a' <= c && c <= 'z') || ('A' <= c && c <= 'Z') || ('0' <= c && c <= '9') || c
            == '-' || c == '_';
        if !ok {
            assert(!is_class_char(t@[i as int]));
            return None;
        }
        i = i + 1;
    }
    Some(owned(t))
}

/// A class replacement on a widget: drop `remove` (if any), add `add`.
#[derive(Debug)]
pub struct ClassSwap {
    pub remove: Option<String>,
    pub add: String,
}

/// The new class slot, and the swap to perform, when a style asks for the
/// class `next`: nothing happens for an absent or invalid name or for the
/// class already in place.
pub open spec fn class_step(slot: Option<Seq<char>>, next: Option<Seq<char>>) -> (
    Option<Seq<char>>,
    Option<(Option<Seq<char>>, Seq<char>)>,
) {
    let n = match next {
        Some(x) => css_class_name(x),
        None => None,
    };
    match n {
        None => (slot, None),
        Some(c) => if slot == Some(c) {
            (slot, None)
        } else {
            (Some(c), Some((slot, c)))
        },
    }
}

/// A swap as characters.
pub open spec fn swap_view(s: ClassSwap) -> (Option<Seq<char>>, Seq<char>) {
    (opt_view(s.remove), s.add@)
}

/// Updates a class slot for the requested class (`update_css_class`) and
/// returns the swap to perform on the widget.
pub fn update_css_class(slot: &mut Option<String>, next: Option<&str>) -> (r: Option<ClassSwap>)
    ensures
        opt_view(*final(slot)) == class_step(opt_view(*old(slot)), match next {
            Some(x) => Some(x@),
            None => None,
        }).0,
        match r {
            Some(s) => class_step(opt_view(*old(slot)), match next {
                Some(x) => Some(x@),
                None => None,
            }).1 == Some(swap_view(s)),
            None => class_step(opt_view(*old(slot)), match next {
                Some(x) => Some(x@),
                None => None,
            }).1 is None,
        },
{
    let name = match next {
        Some(x) => normalize_css_class(x),
        None => None,
    };
    match name {
        None => None,
        Some(c) => {
            let same = match slot {
                Some(current) => str_eq(current.as_str(), c.as_str()),
                None => false,
            };
            if same {
                return None;
            }
            let previous = slot.take();
            *slot = Some(c.clone());
            Some(ClassSwap { remove: previous, add: c })
        },
    }
}

/// The name under which a plugin's dropdown is registered.
pub fn plugin_dropdown_name(id: &str) -> (r: String)
    ensures
        r@ == "plugin-"@ + id@,
{
    let mut r = String::from_str("plugin-");
    r.append(id);
    r
}

/// How one dropdown row is shown.
#[derive(Debug)]
pub enum RowPlan {
    /// A horizontal separator.
    Separator,
    /// A row with its label, the description if it is shown, whether it is
    /// a section header (no description), its action, whether the policy
    /// enables that action, whether clicking the row runs it, and whether
    /// it is a custom action.
    Row {
        label: String,
        description: Option<String>,
        section: bool,
        action: Option<PluginRowAction>,
        action_allowed: bool,
        activatable: bool,
        custom: bool,
    },
}

/// What the dropdown shows below the title.
#[derive(Debug)]
pub enum DropdownBody {
    /// No rows: this text instead.
    Empty(String),
    /// These rows.
    Rows(Vec<RowPlan>),
}

/// The layout of a plugin dropdown.
#[derive(Debug)]
pub struct DropdownPlan {
    /// The title, when there is a non-blank one.
    pub title: Option<String>,
    /// The title alignment bits as the plugin sent them.
    pub title_xalign_bits: Option<u32>,
    pub body: DropdownBody,
}

/// How a row is shown: a blank label without description is a separator
/// (whatever its action); otherwise a row whose description is shown when
/// it is not blank, which is a section header when it has no description,
/// and whose action is enabled as the policy says and runs on click unless
/// it is a custom action.
pub open spec fn row_plan(item: PluginDropdownItem, definition: PluginDefinition) -> RowPlan {
    if is_blank(item.label@) && item.description is None {
        RowPlan::Separator
    } else {
        let allowed = match item.action {
            Some(a) => row_action_allowed(a, definition),
            None => false,
        };
        let custom = item.action matches Some(PluginRowAction::Custom { .. });
        RowPlan::Row {
            label: item.label,
            description: match item.description {
                Some(d) => if is_blank(d@) {
                    None
                } else {
                    Some(d)
                },
                None => None,
            },
            section: item.description is None,
            action: item.action,
            action_allowed: allowed,
            activatable: item.action is Some && allowed && !custom,
            custom,
        }
    }
}

/// Decides how one row is shown.
pub fn plan_row(item: PluginDropdownItem, definition: &PluginDefinition) -> (r: RowPlan)
    ensures
        r == row_plan(item, *definition),
{
    let label_blank = blank(item.label.as_str());
    if label_blank && item.description.is_none() {
        return RowPlan::Separator;
    }
    let allowed = match &item.action {
        Some(a) => validate_row_action(a, definition),
        None => false,
    };
    let custom = match &item.action {
        Some(PluginRowAction::Custom { .. }) => true,
        _ => false,
    };
    let section = item.description.is_none();
    let activatable = item.action.is_some() && allowed && !custom;
    let description = match item.description {
        Some(d) => if blank(d.as_str()) {
            None
        } else {
            Some(d)
        },
        None => None,
    };
    RowPlan::Row {
        label: item.label,
        description,
        section,
        action: item.action,
        action_allowed: allowed,
        activatable,
        custom,
    }
}

/// The text shown for a dropdown without rows: its own empty label when
/// that is not blank, `No items` otherwise.
pub open spec fn empty_text(empty_label: Option<String>) -> Seq<char> {
    match empty_label {
        Some(l) => if is_blank(l@) {
            "No items"@
        } else {
            l@
        },
        None => "No items"@,
    }
}

/// The title shown: the dropdown's own, when it is not blank.
pub open spec fn shown_title(title: Option<String>) -> Option<String> {
    match title {
        Some(t) => if is_blank(t@) {
            None
        } else {
            Some(t)
        },
        None => None,
    }
}

/// The layout of `dropdown` under `definition`.
pub open spec fn planned(dropdown: PluginDropdown, definition: PluginDefinition, r: DropdownPlan) -> bool {
    &&& r.title == shown_title(dropdown.title)
    &&& r.title_xalign_bits == dropdown.title_xalign_bits
    &&& if dropdown.items@.len() == 0 {
        r.body matches DropdownBody::Empty(t) && t@ == empty_text(dropdown.empty_label)
    } else {
        r.body matches DropdownBody::Rows(rows) && rows@ == dropdown.items@.map_values(
            |it: PluginDropdownItem| row_plan(it, definition),
        )
    }
}

/// Lays out a plugin dropdown (`render_dropdown_content`).
pub fn plan_dropdown(dropdown: PluginDropdown, definition: &PluginDefinition) -> (r: DropdownPlan)
    ensures
        planned(dropdown, *definition, r),
{
    let title = match dropdown.title {
        Some(t) => if blank(t.as_str()) {
            None
        } else {
            Some(t)
        },
        None => None,
    };
    if dropdown.items.len() == 0 {
        let text = match dropdown.empty_label {
            Some(l) => if blank(l.as_str()) {
                String::from_str("No items")
            } else {
                l
            },
            None => String::from_str("No items"),
        };
        return DropdownPlan {
            title,
            title_xalign_bits: dropdown.title_xalign_bits,
            body: DropdownBody::Empty(text),
        };
    }
    let ghost all = dropdown.items@;
    let mut rest = dropdown.items;
    let mut rows: Vec<RowPlan> = Vec::new();
    while rest.len() > 0
        invariant
            rows@.len() + rest@.len() == all.len(),
            rest@ == all.subrange(rows@.len() as int, all.len() as int),
            forall|k: int| 0 <= k < rows@.len() ==> rows@[k] == row_plan(#[trigger] all[k], *definition),
        decreases rest@.len(),
    {
        let item = rest.remove(0);
        rows.push(plan_row(item, definition));
    }
    assert(rows@ =~= all.map_values(|it: PluginDropdownItem| row_plan(it, *definition)));
    DropdownPlan {
        title,
        title_xalign_bits: dropdown.title_xalign_bits,
        body: DropdownBody::Rows(rows),
    }
}

/// Messages to the module.
#[derive(Debug)]
pub enum PluginMsg {
    LeftClick,
    RightClick,
    MiddleClick,
    ScrollUp,
    ScrollDown,
    ManualRefresh,
    CustomRowAction(String),
}

/// The interaction that a message forwards to the plugin, if any.
pub open spec fn msg_action(msg: PluginMsg) -> Option<PluginAction> {
    match msg {
        PluginMsg::LeftClick => Some(PluginAction::LeftClick),
        PluginMsg::RightClick => Some(PluginAction::RightClick),
        PluginMsg::MiddleClick => Some(PluginAction::MiddleClick),
        PluginMsg::ScrollUp => Some(PluginAction::ScrollUp),
        PluginMsg::ScrollDown => Some(PluginAction::ScrollDown),
        PluginMsg::ManualRefresh => None,
        PluginMsg::CustomRowAction(_) => None,
    }
}

/// The interaction that a message forwards to the plugin, if any.
pub fn as_action(msg: &PluginMsg) -> (r: Option<PluginAction>)
    ensures
        r == msg_action(*msg),
{
    match msg {
        PluginMsg::LeftClick => Some(PluginAction::LeftClick),
        PluginMsg::RightClick => Some(PluginAction::RightClick),
        PluginMsg::MiddleClick => Some(PluginAction::MiddleClick),
        PluginMsg::ScrollUp => Some(PluginAction::ScrollUp),
        PluginMsg::ScrollDown => Some(PluginAction::ScrollDown),
        PluginMsg::ManualRefresh => None,
        PluginMsg::CustomRowAction(_) => None,
    }
}

/// Results that the runtime's tasks send back to the module.
#[derive(Debug)]
pub enum PluginCmd {
    Snapshot(PluginUpdate),
    ActionResult(PluginAction, PluginActionResult),
    RowActionResult(PluginActionResult),
    Error(String),
}

/// What the module does to its widgets and tasks.
#[derive(Debug)]
pub enum ModuleEffect {
    SetLabel(String),
    SetTooltip(Option<String>),
    SetVisible(bool),
    /// Rebuild the dropdown's content from this dropdown.
    RenderDropdown(PluginDropdown),
    /// Lock the dropdown to this percentage of the screen height, or let
    /// it size naturally.
    ApplyHeight(Option<u8>),
    SwapButtonClass(ClassSwap),
    SwapDropdownClass(ClassSwap),
    LoadCss(String),
    ForceResize,
    SpawnRefresh,
    SpawnAction(PluginAction),
    SpawnRowAction(String),
    MarkRowActionInFlight,
    ManualRefresh,
    DispatchClick(ClickAction),
    LogError(String),
    Popup,
    ClearRowActionInFlight,
}

/// An effect with its texts as characters.
pub enum EffectView {
    SetLabel(Seq<char>),
    SetTooltip(Option<Seq<char>>),
    SetVisible(bool),
    RenderDropdown(PluginDropdown),
    ApplyHeight(Option<u8>),
    SwapButtonClass(Option<Seq<char>>, Seq<char>),
    SwapDropdownClass(Option<Seq<char>>, Seq<char>),
    LoadCss(Seq<char>),
    ForceResize,
    SpawnRefresh,
    SpawnAction(PluginAction),
    SpawnRowAction(Seq<char>),
    MarkRowActionInFlight,
    ManualRefresh,
    DispatchClick(ClickAction),
    LogError(Seq<char>),
    Popup,
    ClearRowActionInFlight,
}

impl View for ModuleEffect {
    type V = EffectView;

    open spec fn view(&self) -> EffectView {
        match self {
            ModuleEffect::SetLabel(s) => EffectView::SetLabel(s@),
            ModuleEffect::SetTooltip(t) => EffectView::SetTooltip(opt_view(*t)),
            ModuleEffect::SetVisible(b) => EffectView::SetVisible(*b),
            ModuleEffect::RenderDropdown(d) => EffectView::RenderDropdown(*d),
            ModuleEffect::ApplyHeight(h) => EffectView::ApplyHeight(*h),
            ModuleEffect::SwapButtonClass(s) => EffectView::SwapButtonClass(
                swap_view(*s).0,
                swap_view(*s).1,
            ),
            ModuleEffect::SwapDropdownClass(s) => EffectView::SwapDropdownClass(
                swap_view(*s).0,
                swap_view(*s).1,
            ),
            ModuleEffect::LoadCss(c) => EffectView::LoadCss(c@),
            ModuleEffect::ForceResize => EffectView::ForceResize,
            ModuleEffect::SpawnRefresh => EffectView::SpawnRefresh,
            ModuleEffect::SpawnAction(a) => EffectView::SpawnAction(*a),
            ModuleEffect::SpawnRowAction(p) => EffectView::SpawnRowAction(p@),
            ModuleEffect::MarkRowActionInFlight => EffectView::MarkRowActionInFlight,
            ModuleEffect::ManualRefresh => EffectView::ManualRefresh,
            ModuleEffect::DispatchClick(c) => EffectView::DispatchClick(*c),
            ModuleEffect::LogError(e) => EffectView::LogError(e@),
            ModuleEffect::Popup => EffectView::Popup,
            ModuleEffect::ClearRowActionInFlight => EffectView::ClearRowActionInFlight,
        }
    }
}

/// A sequence of effects as views.
pub open spec fn effects_view(effects: Seq<ModuleEffect>) -> Seq<EffectView> {
    effects.map_values(|e: ModuleEffect| e@)
}

/// The module's own state, as characters.
pub struct ModuleView {
    pub last_plugin_css: Option<Seq<char>>,
    pub custom_button_class: Option<Seq<char>>,
    pub custom_dropdown_class: Option<Seq<char>>,
    pub style_once_applied: bool,
    pub reopen_after_custom_row_action: bool,
    pub dropdown_height_percent: Option<u8>,
    pub last_label_len: nat,
}

/// What the module remembers between messages.
pub struct ModuleState {
    last_plugin_css: Option<String>,
    custom_button_class: Option<String>,
    custom_dropdown_class: Option<String>,
    style_once_applied: bool,
    reopen_after_custom_row_action: bool,
    dropdown_height_percent: Option<u8>,
    last_label_len: usize,
}

impl View for ModuleState {
    type V = ModuleView;

    closed spec fn view(&self) -> ModuleView {
        ModuleView {
            last_plugin_css: opt_view(self.last_plugin_css),
            custom_button_class: opt_view(self.custom_button_class),
            custom_dropdown_class: opt_view(self.custom_dropdown_class),
            style_once_applied: self.style_once_applied,
            reopen_after_custom_row_action: self.reopen_after_custom_row_action,
            dropdown_height_percent: self.dropdown_height_percent,
            last_label_len: self.last_label_len as nat,
        }
    }
}

/// The optional swap as an effect list.
pub open spec fn swap_effects(
    swap: Option<(Option<Seq<char>>, Seq<char>)>,
    button: bool,
) -> Seq<EffectView> {
    match swap {
        Some((remove, add)) => if button {
            seq![EffectView::SwapButtonClass(remove, add)]
        } else {
            seq![EffectView::SwapDropdownClass(remove, add)]
        },
        None => Seq::empty(),
    }
}

/// Applying a style: a `once` style is ignored after a `once` style has
/// been applied; otherwise the button and dropdown classes are swapped as
/// `class_step` says, new CSS is loaded unless it is the CSS last loaded,
/// and the dropdown height is set to the clamped percentage.
pub open spec fn style_step(st: ModuleView, style: PluginStyle) -> (ModuleView, Seq<EffectView>) {
    if style.once && st.style_once_applied {
        (st, Seq::empty())
    } else {
        let (b, bswap) = class_step(st.custom_button_class, opt_view(style.button_class));
        let (d, dswap) = class_step(st.custom_dropdown_class, opt_view(style.dropdown_class));
        let (css, load) = match style.css {
            Some(c) => if st.last_plugin_css == Some(c@) {
                (st.last_plugin_css, Seq::<EffectView>::empty())
            } else {
                (Some(c@), seq![EffectView::LoadCss(c@)])
            },
            None => (st.last_plugin_css, Seq::<EffectView>::empty()),
        };
        let h = match style.dropdown_height_percent {
            Some(p) => Some(clamp_percent(p)),
            None => None,
        };
        (
            ModuleView {
                last_plugin_css: css,
                custom_button_class: b,
                custom_dropdown_class: d,
                dropdown_height_percent: h,
                style_once_applied: st.style_once_applied || style.once,
                ..st
            },
            swap_effects(bswap, true) + swap_effects(dswap, false) + load + seq![
                EffectView::ApplyHeight(h),
            ],
        )
    }
}

/// Whether the module is shown after a snapshot: it is hidden only when the
/// plugin reports it invisible and `hide-if-empty` is set.
pub open spec fn shown_after(u: PluginUpdate, hide_if_empty: bool) -> bool {
    u.visible || !hide_if_empty
}

/// Applying a snapshot: label, tooltip and visibility (`shown_after`); the
/// dropdown (re-laid out at the current height); the style; and a window
/// resize when the label's length in characters changed.
pub open spec fn update_step(st: ModuleView, u: PluginUpdate, hide_if_empty: bool) -> (
    ModuleView,
    Seq<EffectView>,
) {
    let base = seq![
        EffectView::SetLabel(u.label@),
        EffectView::SetTooltip(opt_view(u.tooltip)),
        EffectView::SetVisible(shown_after(u, hide_if_empty)),
    ];
    let dd = match u.dropdown {
        Some(d) => seq![EffectView::RenderDropdown(d), EffectView::ApplyHeight(st.dropdown_height_percent)],
        None => Seq::empty(),
    };
    let (st2, se) = match u.style {
        Some(s) => style_step(st, s),
        None => (st, Seq::empty()),
    };
    let n = u.label@.len();
    let resize = if n != st.last_label_len {
        seq![EffectView::ForceResize]
    } else {
        Seq::empty()
    };
    (ModuleView { last_label_len: n, ..st2 }, base + dd + se + resize)
}

/// Handling a message: a manual refresh spawns a refresh; a custom row
/// action remembers whether the dropdown was open, marks a row action in
/// flight and spawns it; an interaction is forwarded to the plugin.
pub open spec fn msg_step(st: ModuleView, msg: PluginMsg, popover_visible: bool) -> (
    ModuleView,
    Seq<EffectView>,
) {
    match msg {
        PluginMsg::ManualRefresh => (st, seq![EffectView::SpawnRefresh]),
        PluginMsg::CustomRowAction(p) => (
            ModuleView { reopen_after_custom_row_action: popover_visible, ..st },
            seq![EffectView::MarkRowActionInFlight, EffectView::SpawnRowAction(p@)],
        ),
        _ => (st, seq![EffectView::SpawnAction(msg_action(msg).unwrap())]),
    }
}

/// The effects of a result before the dropdown is reopened.
pub open spec fn result_step(st: ModuleView, cmd: PluginCmd, definition: PluginDefinition) -> (
    ModuleView,
    Seq<EffectView>,
) {
    match cmd {
        PluginCmd::Snapshot(u) => update_step(st, u, definition.hide_if_empty),
        PluginCmd::ActionResult(kind, PluginActionResult::Unhandled) => (
            st,
            seq![EffectView::DispatchClick(configured_action(definition, kind))],
        ),
        PluginCmd::ActionResult(_, PluginActionResult::Consumed(Some(u))) => update_step(st, u, definition.hide_if_empty),
        PluginCmd::ActionResult(_, PluginActionResult::Consumed(None)) => (st, Seq::empty()),
        PluginCmd::RowActionResult(PluginActionResult::Consumed(Some(u))) => update_step(st, u, definition.hide_if_empty),
        PluginCmd::RowActionResult(_) => (st, Seq::empty()),
        PluginCmd::Error(e) => (
            st,
            seq![
                EffectView::LogError(e@),
                EffectView::SetLabel("?"@),
                EffectView::SetTooltip(Some("Plugin refresh failed"@)),
                EffectView::SetVisible(true),
            ],
        ),
    }
}

/// An unhandled middle click with no configured action refreshes the
/// plugin instead.
pub open spec fn refreshes_instead(cmd: PluginCmd, definition: PluginDefinition) -> bool {
    cmd matches PluginCmd::ActionResult(PluginAction::MiddleClick, PluginActionResult::Unhandled)
        && definition.middle_click == ClickAction::NoAction
}

/// Handling a runtime result: `refreshes_instead` sends a manual refresh
/// and nothing else; otherwise `result_step`, then the dropdown is
/// reopened if a custom row action closed it, and the in-flight mark is
/// cleared after a row action's result or an error.
pub open spec fn cmd_step(
    st: ModuleView,
    cmd: PluginCmd,
    definition: PluginDefinition,
    popover_visible: bool,
) -> (ModuleView, Seq<EffectView>) {
    if refreshes_instead(cmd, definition) {
        (st, seq![EffectView::ManualRefresh])
    } else {
        let (st2, e) = result_step(st, cmd, definition);
        let popup = if st2.reopen_after_custom_row_action && !popover_visible {
            seq![EffectView::Popup]
        } else {
            Seq::empty()
        };
        let clear = if cmd is RowActionResult || cmd is Error {
            seq![EffectView::ClearRowActionInFlight]
        } else {
            Seq::empty()
        };
        (ModuleView { reopen_after_custom_row_action: false, ..st2 }, e + popup + clear)
    }
}

/// What a freshly created module shows: the label `...`, the tooltip
/// `Checking plugin state...`, and, where `hide-if-empty` is set, nothing
/// until the plugin reports itself visible.
pub open spec fn initial_view(hide_if_empty: bool) -> Seq<EffectView> {
    seq![EffectView::SetLabel("..."@), EffectView::SetTooltip(Some("Checking plugin state..."@))]
        + if hide_if_empty {
        seq![EffectView::SetVisible(false)]
    } else {
        Seq::<EffectView>::empty()
    }
}

/// The effects that set up a freshly created module for `definition`.
pub fn initial_effects(definition: &PluginDefinition) -> (effects: Vec<ModuleEffect>)
    ensures
        effects_view(effects@) == initial_view(definition.hide_if_empty),
{
    let mut effects: Vec<ModuleEffect> = Vec::new();
    push_effect(&mut effects, ModuleEffect::SetLabel(String::from_str("...")));
    push_effect(
        &mut effects,
        ModuleEffect::SetTooltip(Some(String::from_str("Checking plugin state..."))),
    );
    if definition.hide_if_empty {
        push_effect(&mut effects, ModuleEffect::SetVisible(false));
    }
    proof {
        reveal_strlit("...");
        reveal_strlit("Checking plugin state...");
    }
    assert(effects_view(effects@) =~= initial_view(definition.hide_if_empty));
    effects
}

fn push_effect(effects: &mut Vec<ModuleEffect>, e: ModuleEffect)
    ensures
        effects_view(final(effects)@) == effects_view(old(effects)@).push(e@),
{
    effects.push(e);
    assert(effects_view(effects@) =~= effects_view(old(effects)@).push(e@));
}

impl ModuleState {
    /// The state of a freshly created module (the label starts as `...`).
    pub fn new() -> (r: Self)
        ensures
            r@ == (ModuleView {
                last_plugin_css: None,
                custom_button_class: None,
                custom_dropdown_class: None,
                style_once_applied: false,
                reopen_after_custom_row_action: false,
                dropdown_height_percent: None,
                last_label_len: 3,
            }),
    {
        ModuleState {
            last_plugin_css: None,
            custom_button_class: None,
            custom_dropdown_class: None,
            style_once_applied: false,
            reopen_after_custom_row_action: false,
            dropdown_height_percent: None,
            last_label_len: 3,
        }
    }

    fn apply_plugin_css(&mut self, css: String, effects: &mut Vec<ModuleEffect>)
        ensures
            final(self)@ == (ModuleView { last_plugin_css: Some(css@), ..old(self)@ }),
            effects_view(final(effects)@) == effects_view(old(effects)@) + if old(self)@.last_plugin_css
                == Some(css@) {
                Seq::<EffectView>::empty()
            } else {
                seq![EffectView::LoadCss(css@)]
            },
    {
        let same = match &self.last_plugin_css {
            Some(last) => str_eq(last.as_str(), css.as_str()),
            None => false,
        };
        if same {
            assert(effects_view(effects@) =~= effects_view(old(effects)@) + Seq::<EffectView>::empty());
            return;
        }
        self.last_plugin_css = Some(css.clone());
        push_effect(effects, ModuleEffect::LoadCss(css));
    }

    /// Applies a style (`apply_style_classes`).
    #[verifier::rlimit(30)]
    pub fn apply_style(&mut self, style: PluginStyle, effects: &mut Vec<ModuleEffect>)
        ensures
            final(self)@ == style_step(old(self)@, style).0,
            effects_view(final(effects)@) == effects_view(old(effects)@) + style_step(
                old(self)@,
                style,
            ).1,
    {
        let ghost st = self@;
        let ghost e0 = effects_view(effects@);
        if style.once && self.style_once_applied {
            assert(effects_view(effects@) =~= e0 + Seq::<EffectView>::empty());
            return;
        }
        let ghost s0 = style;
        let bswap = update_css_class(
            &mut self.custom_button_class,
            match &style.button_class {
                Some(c) => Some(c.as_str()),
                None => None,
            },
        );
        let ghost e1 = effects_view(effects@);
        match bswap {
            Some(s) => push_effect(effects, ModuleEffect::SwapButtonClass(s)),
            None => {},
        }
        let ghost e2 = effects_view(effects@);
        assert(e2 =~= e1 + swap_effects(class_step(st.custom_button_class, opt_view(s0.button_class)).1, true));
        let dswap = update_css_class(
            &mut self.custom_dropdown_class,
            match &style.dropdown_class {
                Some(c) => Some(c.as_str()),
                None => None,
            },
        );
        match dswap {
            Some(s) => push_effect(effects, ModuleEffect::SwapDropdownClass(s)),
            None => {},
        }
        let ghost e3 = effects_view(effects@);
        assert(e3 =~= e2 + swap_effects(class_step(st.custom_dropdown_class, opt_view(s0.dropdown_class)).1, false));
        let ghost e4_expected = match s0.css {
            Some(c) => if st.last_plugin_css == Some(c@) {
                Seq::<EffectView>::empty()
            } else {
                seq![EffectView::LoadCss(c@)]
            },
            None => Seq::<EffectView>::empty(),
        };
        match style.css {
            Some(css) => self.apply_plugin_css(css, effects),
            None => {},
        }
        let ghost e4 = effects_view(effects@);
        assert(e4 =~= e3 + e4_expected);
        let h = match style.dropdown_height_percent {
            Some(p) => Some(if p < 1 {
                1
            } else if p > 100 {
                100
            } else {
                p
            }),
            None => None,
        };
        self.dropdown_height_percent = h;
        push_effect(effects, ModuleEffect::ApplyHeight(h));
        if style.once {
            self.style_once_applied = true;
        }
        assert(effects_view(effects@) =~= e0 + style_step(st, s0).1);
    }

    /// Applies a snapshot (`apply_update`).
    /// `hide_if_empty` is the module's `hide-if-empty` option.
    pub fn apply_update(
        &mut self,
        update: PluginUpdate,
        hide_if_empty: bool,
        effects: &mut Vec<ModuleEffect>,
    )
        ensures
            final(self)@ == update_step(old(self)@, update, hide_if_empty).0,
            effects_view(final(effects)@) == effects_view(old(effects)@) + update_step(
                old(self)@,
                update,
                hide_if_empty,
            ).1,
    {
        let ghost st = self@;
        let ghost e0 = effects_view(effects@);
        let ghost u = update;
        let new_len = update.label.as_str().unicode_len();
        push_effect(effects, ModuleEffect::SetLabel(update.label));
        push_effect(effects, ModuleEffect::SetTooltip(update.tooltip));
        push_effect(effects, ModuleEffect::SetVisible(update.visible || !hide_if_empty));
        let ghost e1 = effects_view(effects@);
        match update.dropdown {
            Some(d) => {
                push_effect(effects, ModuleEffect::RenderDropdown(d));
                push_effect(effects, ModuleEffect::ApplyHeight(self.dropdown_height_percent));
            },
            None => {},
        }
        let ghost e2 = effects_view(effects@);
        match update.style {
            Some(s) => self.apply_style(s, effects),
            None => {},
        }
        let ghost e3 = effects_view(effects@);
        if new_len != self.last_label_len {
            self.last_label_len = new_len;
            push_effect(effects, ModuleEffect::ForceResize);
        } else {
            self.last_label_len = new_len;
        }
        assert(effects_view(effects@) =~= e0 + update_step(st, u, hide_if_empty).1);
    }

    /// Handles a message (`update`); `popover_visible` tells whether the
    /// dropdown is open.
    pub fn on_message(&mut self, msg: PluginMsg, popover_visible: bool) -> (effects: Vec<ModuleEffect>)
        ensures
            final(self)@ == msg_step(old(self)@, msg, popover_visible).0,
            effects_view(effects@) == msg_step(old(self)@, msg, popover_visible).1,
    {
        let ghost m = msg;
        let mut effects: Vec<ModuleEffect> = Vec::new();
        match msg {
            PluginMsg::ManualRefresh => {
                push_effect(&mut effects, ModuleEffect::SpawnRefresh);
            },
            PluginMsg::CustomRowAction(payload) => {
                self.reopen_after_custom_row_action = popover_visible;
                push_effect(&mut effects, ModuleEffect::MarkRowActionInFlight);
                push_effect(&mut effects, ModuleEffect::SpawnRowAction(payload));
            },
            PluginMsg::LeftClick => push_effect(&mut effects, ModuleEffect::SpawnAction(PluginAction::LeftClick)),
            PluginMsg::RightClick => push_effect(&mut effects, ModuleEffect::SpawnAction(PluginAction::RightClick)),
            PluginMsg::MiddleClick => push_effect(&mut effects, ModuleEffect::SpawnAction(PluginAction::MiddleClick)),
            PluginMsg::ScrollUp => push_effect(&mut effects, ModuleEffect::SpawnAction(PluginAction::ScrollUp)),
            PluginMsg::ScrollDown => push_effect(&mut effects, ModuleEffect::SpawnAction(PluginAction::ScrollDown)),
        }
        assert(effects_view(effects@) =~= msg_step(old(self)@, m, popover_visible).1);
        effects
    }

    /// Handles a runtime result (`update_cmd`); `popover_visible` tells
    /// whether the dropdown is open.
    pub fn on_command(
        &mut self,
        cmd: PluginCmd,
        definition: &PluginDefinition,
        popover_visible: bool,
    ) -> (effects: Vec<ModuleEffect>)
        ensures
            final(self)@ == cmd_step(old(self)@, cmd, *definition, popover_visible).0,
            effects_view(effects@) == cmd_step(old(self)@, cmd, *definition, popover_visible).1,
    {
        let ghost st = self@;
        let ghost c = cmd;
        let mut effects: Vec<ModuleEffect> = Vec::new();
        let completion = match &cmd {
            PluginCmd::RowActionResult(_) => true,
            PluginCmd::Error(_) => true,
            _ => false,
        };
        match cmd {
            PluginCmd::Snapshot(update) => self.apply_update(update, definition.hide_if_empty, &mut effects),
            PluginCmd::ActionResult(kind, result) => match result {
                PluginActionResult::Unhandled => {
                    let action = action_for(definition, kind);
                    let is_none = match &action {
                        ClickAction::NoAction => true,
                        _ => false,
                    };
                    let middle = match kind {
                        PluginAction::MiddleClick => true,
                        _ => false,
                    };
                    if is_none && middle {
                        push_effect(&mut effects, ModuleEffect::ManualRefresh);
                        assert(effects_view(effects@) =~= seq![EffectView::ManualRefresh]);
                        return effects;
                    }
                    push_effect(&mut effects, ModuleEffect::DispatchClick(action));
                },
                PluginActionResult::Consumed(Some(update)) => self.apply_update(update, definition.hide_if_empty, &mut effects),
                PluginActionResult::Consumed(None) => {},
            },
            PluginCmd::RowActionResult(result) => match result {
                PluginActionResult::Consumed(Some(update)) => self.apply_update(update, definition.hide_if_empty, &mut effects),
                _ => {},
            },
            PluginCmd::Error(error) => {
                push_effect(&mut effects, ModuleEffect::LogError(error));
                push_effect(&mut effects, ModuleEffect::SetLabel(String::from_str("?")));
                push_effect(
                    &mut effects,
                    ModuleEffect::SetTooltip(Some(String::from_str("Plugin refresh failed"))),
                );
                push_effect(&mut effects, ModuleEffect::SetVisible(true));
            },
        }
        let ghost e1 = effects_view(effects@);
        assert(!refreshes_instead(c, *definition));
        assert(self@ == result_step(st, c, *definition).0);
        assert(e1 =~= result_step(st, c, *definition).1);
        if self.reopen_after_custom_row_action && !popover_visible {
            push_effect(&mut effects, ModuleEffect::Popup);
        }
        self.reopen_after_custom_row_action = false;
        if completion {
            push_effect(&mut effects, ModuleEffect::ClearRowActionInFlight);
        }
        effects
    }
}

/// The watcher of `modules.plugins`: the first change notification is the
/// initial value and is skipped; every later one reloads the plugins.
pub struct PluginsWatch {
    initialized: bool,
}

impl View for PluginsWatch {
    type V = bool;

    closed spec fn view(&self) -> bool {
        self.initialized
    }
}

impl PluginsWatch {
    /// A watcher that has seen nothing yet.
    pub fn new() -> (r: Self)
        ensures
            !r@,
    {
        PluginsWatch { initialized: false }
    }

    /// Whether this change notification should reload the plugin
    /// definitions.
    pub fn on_change(&mut self) -> (reload: bool)
        ensures
            reload == old(self)@,
            final(self)@,
    {
        if !self.initialized {
            self.initialized = true;
            return false;
        }
        true
    }
}

} // verus!
