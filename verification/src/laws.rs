//! Properties that hold across the library's functions.

use vstd::arithmetic::div_mod::lemma_fundamental_div_mod_converse;
use vstd::prelude::*;

use crate::config::{command_allowed, contains_text, definition_allows, ClickAction, PluginDefinition};
use crate::sdk::host::{
    index_of, lemma_index_of, output_verdict, packed_value, parsed_host_error, without_trailing_nuls,
    HostErrorView,
};
use crate::sdk::types::{action_of_code, clamp_percent, PluginAction as WireAction, PluginDropdownItem};
use crate::sdk::validators::item_verdict;
use crate::shell::module::{
    cmd_step, css_class_name, planned, row_plan, style_step, DropdownBody, DropdownPlan, EffectView,
    ModuleView, PluginCmd, RowPlan,
};
use crate::shell::paths::{
    env_lookup, expand_vars, expanded_path, is_name_char, lemma_name_len, tilde_expanded,
};
use crate::shell::policy::{effective, error_reply, row_action_allowed};
use crate::shell::registry::{
    action_code, configured_action, PluginAction, PluginActionResult, PluginDropdown, PluginStyle,
    PluginUpdate,
};
use crate::text::{has_prefix, is_blank, lemma_trimmed_idempotent, trimmed};

verus! {

/// The SDK action with the same name as a runtime action.
pub open spec fn wire_action(a: PluginAction) -> WireAction {
    match a {
        PluginAction::LeftClick => WireAction::LeftClick,
        PluginAction::RightClick => WireAction::RightClick,
        PluginAction::MiddleClick => WireAction::MiddleClick,
        PluginAction::ScrollUp => WireAction::ScrollUp,
        PluginAction::ScrollDown => WireAction::ScrollDown,
    }
}

/// The runtime and the SDK agree on action codes: the code the runtime
/// sends for an action decodes in the plugin to the same action, and no
/// code outside `1..=5` decodes to one.
pub proof fn law_action_codes_round_trip(a: PluginAction, code: i32)
    ensures
        action_of_code(action_code(a)) == Some(wire_action(a)),
        (code < 1 || code > 5) ==> action_of_code(code) is None,
{
}

/// Unpacking a packed (pointer, length) pair gives back both values, as
/// unsigned 32-bit numbers; the packed value fits in an `i64`.
pub proof fn law_pack_round_trip(ptr: i32, len: i32)
    ensures
        i64::MIN <= packed_value(ptr, len) <= i64::MAX,
        (packed_value(ptr, len) / 0x1_0000_0000) % 0x1_0000_0000 == (ptr as u32) as int,
        packed_value(ptr, len) % 0x1_0000_0000 == (len as u32) as int,
{
    let x = packed_value(ptr, len);
    let l = (len as u32) as int;
    lemma_fundamental_div_mod_converse(x, 0x1_0000_0000, ptr as int, l);
    assert((ptr as u32) as int == (ptr as int) % 0x1_0000_0000) by (bit_vector);
    assert(ptr as int * 0x1_0000_0000 >= i32::MIN * 0x1_0000_0000) by (nonlinear_arith)
        requires
            ptr >= i32::MIN,
    ;
    assert(ptr as int * 0x1_0000_0000 <= i32::MAX * 0x1_0000_0000) by (nonlinear_arith)
        requires
            ptr <= i32::MAX,
    ;
}

proof fn lemma_colon_split(code: Seq<char>, message: Seq<char>)
    requires
        forall|k: int| 0 <= k < code.len() ==> code[k] != ':',
    ensures
        index_of(code + ":"@ + message, ':') == code.len(),
        (code + ":"@ + message).subrange(0, code.len() as int) == code,
        (code + ":"@ + message).subrange(code.len() as int + 1, (code + ":"@ + message).len() as int)
            == message,
{
    reveal_strlit(":");
    let s = code + ":"@ + message;
    assert forall|k: int| 0 <= k < code.len() implies s[k] != ':' by {
        assert(s[k] == code[k]);
    }
    assert(s[code.len() as int] == ':');
    lemma_index_of(s, ':', code.len() as int);
    assert(s.subrange(0, code.len() as int) =~= code);
    assert(s.subrange(code.len() as int + 1, s.len() as int) =~= message);
}

/// An error reply that the host writes decodes, in the plugin, to the error
/// that `code:message` stands for, when the code has no colon and the
/// message does not end in NUL.
pub proof fn law_error_reply_decodes(code: Seq<char>, message: Seq<char>)
    requires
        forall|k: int| 0 <= k < code.len() ==> code[k] != ':',
        message.len() == 0 || message.last() != '\0',
    ensures
        output_verdict(error_reply(code, message)) == Err::<Seq<char>, HostErrorView>(
            parsed_host_error(code + ":"@ + message),
        ),
{
    reveal_strlit(":");
    reveal_strlit("__WAYLE_ERROR__:");
    let marker = "__WAYLE_ERROR__:"@;
    let body = code + ":"@ + message;
    let s = error_reply(code, message);
    assert(s =~= marker + body);
    assert(s.last() != '\0') by {
        if message.len() == 0 {
            assert(s.last() == ':');
        } else {
            assert(s.last() == message.last());
        }
    }
    assert(without_trailing_nuls(s) == s);
    assert(s.subrange(0, marker.len() as int) =~= marker);
    assert(s.subrange(marker.len() as int, s.len() as int) =~= body);
}

/// What the host answers a plugin without `command.exec` decodes, in the
/// plugin, to `PermissionDenied("missing capability command.exec")`.
pub proof fn law_permission_denial_decodes()
    ensures
        output_verdict(
            error_reply("WAYLE_ERR_PERMISSION_DENIED"@, "missing capability command.exec"@),
        ) == Err::<Seq<char>, HostErrorView>(
            HostErrorView::PermissionDenied("missing capability command.exec"@),
        ),
{
    let code = "WAYLE_ERR_PERMISSION_DENIED"@;
    let message = "missing capability command.exec"@;
    reveal_strlit("WAYLE_ERR_PERMISSION_DENIED");
    reveal_strlit("missing capability command.exec");
    law_error_reply_decodes(code, message);
    lemma_colon_split(code, message);
}

/// What the host answers a command that the prefix policy refuses decodes,
/// in the plugin, to `PolicyViolation`.
pub proof fn law_policy_denial_decodes()
    ensures
        output_verdict(
            error_reply(
                "WAYLE_ERR_POLICY_VIOLATION"@,
                "command not allowed by command-exec-allowed-prefixes"@,
            ),
        ) == Err::<Seq<char>, HostErrorView>(
            HostErrorView::PolicyViolation("command not allowed by command-exec-allowed-prefixes"@),
        ),
{
    let code = "WAYLE_ERR_POLICY_VIOLATION"@;
    let message = "command not allowed by command-exec-allowed-prefixes"@;
    reveal_strlit("WAYLE_ERR_POLICY_VIOLATION");
    reveal_strlit("WAYLE_ERR_PERMISSION_DENIED");
    reveal_strlit("command not allowed by command-exec-allowed-prefixes");
    law_error_reply_decodes(code, message);
    lemma_colon_split(code, message);
}

/// A command that fails on the host with error `e` (not ending in NUL)
/// decodes, in the plugin, to `Unavailable(e)`.
pub proof fn law_execution_failure_decodes(e: Seq<char>)
    requires
        e.len() == 0 || e.last() != '\0',
    ensures
        output_verdict(error_reply("WAYLE_ERR_UNAVAILABLE"@, e)) == Err::<Seq<char>, HostErrorView>(
            HostErrorView::Unavailable(e),
        ),
{
    let code = "WAYLE_ERR_UNAVAILABLE"@;
    reveal_strlit(":");
    reveal_strlit("WAYLE_ERR_UNAVAILABLE");
    reveal_strlit("WAYLE_ERR_PERMISSION_DENIED");
    reveal_strlit("WAYLE_ERR_POLICY_VIOLATION");
    reveal_strlit("WAYLE_ERR_INVALID_ACTION");
    law_error_reply_decodes(code, e);
    lemma_colon_split(code, e);
    assert(code.len() != "WAYLE_ERR_PERMISSION_DENIED"@.len());
    assert(code.len() != "WAYLE_ERR_POLICY_VIOLATION"@.len());
    assert(code.len() != "WAYLE_ERR_INVALID_ACTION"@.len());
}

/// A command's output reaches the plugin unchanged, unless it ends in NUL
/// characters (which are dropped) or starts with the error marker.
pub proof fn law_output_round_trip(output: Seq<char>)
    requires
        output.len() == 0 || output.last() != '\0',
        !has_prefix(output, "__WAYLE_ERROR__:"@),
    ensures
        output_verdict(output) == Ok::<Seq<char>, HostErrorView>(output),
{
}

/// Command execution requires the `command.exec` capability.
pub proof fn law_command_needs_capability(definition: PluginDefinition, command: Seq<char>)
    requires
        definition_allows(definition, command),
    ensures
        contains_text(definition.capabilities@, "command.exec"@),
{
}

/// An empty prefix list blocks every command.
pub proof fn law_empty_prefixes_block(definition: PluginDefinition, command: Seq<char>)
    requires
        definition.command_exec_allowed_prefixes@.len() == 0,
    ensures
        !definition_allows(definition, command),
{
}

/// The legacy `allow-shell-commands` flag grants nothing: the policy is
/// the same whatever its value.
pub proof fn law_legacy_flag_grants_nothing(definition: PluginDefinition, flag: bool, command: Seq<char>)
    ensures
        definition_allows(PluginDefinition { allow_shell_commands: flag, ..definition }, command)
            == definition_allows(definition, command),
{
}

/// Configuration wins over the manifest: when the configuration lists
/// capabilities and prefixes, the effective policy is the configured one,
/// whatever the manifest declares.
pub proof fn law_config_overrides_manifest(
    definition: PluginDefinition,
    manifest_capabilities: Seq<String>,
    manifest_prefixes: Seq<String>,
    policy: PluginDefinition,
    command: Seq<char>,
)
    requires
        definition.capabilities@.len() > 0,
        definition.command_exec_allowed_prefixes@.len() > 0,
        effective(definition, manifest_capabilities, manifest_prefixes, policy),
    ensures
        definition_allows(policy, command) == definition_allows(definition, command),
{
}

/// The manifest is the fallback: with neither capabilities nor prefixes
/// configured, the manifest's decide.
pub proof fn law_manifest_fallback(
    definition: PluginDefinition,
    manifest_capabilities: Seq<String>,
    manifest_prefixes: Seq<String>,
    policy: PluginDefinition,
    command: Seq<char>,
)
    requires
        definition.capabilities@.len() == 0,
        definition.command_exec_allowed_prefixes@.len() == 0,
        effective(definition, manifest_capabilities, manifest_prefixes, policy),
    ensures
        definition_allows(policy, command) == command_allowed(
            manifest_capabilities,
            manifest_prefixes,
            command,
        ),
{
}

/// If neither the configuration nor the manifest lists prefixes, command
/// execution is blocked.
pub proof fn law_no_prefixes_anywhere_block(
    definition: PluginDefinition,
    manifest_capabilities: Seq<String>,
    manifest_prefixes: Seq<String>,
    policy: PluginDefinition,
    command: Seq<char>,
)
    requires
        definition.command_exec_allowed_prefixes@.len() == 0,
        manifest_prefixes.len() == 0,
        effective(definition, manifest_capabilities, manifest_prefixes, policy),
    ensures
        !definition_allows(policy, command),
{
}

/// The dropdown enables a command row exactly when the host would run that
/// command for the plugin.
pub proof fn law_command_rows_match_host_policy(definition: PluginDefinition, command: String)
    ensures
        row_action_allowed(
            crate::shell::registry::PluginRowAction::RunCommand { command },
            definition,
        ) == definition_allows(definition, command@),
        row_action_allowed(
            crate::shell::registry::PluginRowAction::LegacyCommand(command),
            definition,
        ) == definition_allows(definition, command@),
{
}

/// A separator row (empty label, no description, no action) passes
/// validation.
pub proof fn law_separator_row_is_valid(item: PluginDropdownItem)
    requires
        item.label@.len() == 0,
        item.description is None,
        item.action is None,
    ensures
        item_verdict(item) is Ok,
{
}

/// A row with a blank label and no description is shown as a separator.
pub proof fn law_blank_rows_render_as_separators(
    item: crate::shell::registry::PluginDropdownItem,
    definition: PluginDefinition,
)
    requires
        is_blank(item.label@),
        item.description is None,
    ensures
        row_plan(item, definition) == RowPlan::Separator,
{
}

/// A row with a label but no description is shown as a section header.
pub proof fn law_rows_without_description_are_sections(
    item: crate::shell::registry::PluginDropdownItem,
    definition: PluginDefinition,
)
    requires
        !is_blank(item.label@),
        item.description is None,
    ensures
        row_plan(item, definition) matches RowPlan::Row { section: true, .. },
{
}

/// The dropdown height percentage is always within `1..=100`, and
/// clamping twice changes nothing.
pub proof fn law_height_percent_clamped(percent: u8)
    ensures
        1 <= clamp_percent(percent) <= 100,
        clamp_percent(clamp_percent(percent)) == clamp_percent(percent),
{
}

/// A valid CSS class name is its own normal form.
pub proof fn law_css_class_idempotent(input: Seq<char>)
    ensures
        css_class_name(input) matches Some(c) ==> css_class_name(c) == Some(c),
{
    if let Some(c) = css_class_name(input) {
        lemma_trimmed_idempotent(input);
        assert(trimmed(c) == c);
    }
}

/// A text with no `$` that does not start with `~` is its own expansion.
pub proof fn law_plain_path_unchanged(raw: Seq<char>, env: Seq<(String, String)>)
    requires
        forall|k: int| 0 <= k < raw.len() ==> raw[k] != '$',
        raw.len() == 0 || raw[0] != '~',
    ensures
        expanded_path(raw, env) == raw,
{
    reveal_strlit("~/");
    reveal_strlit("~");
    assert(tilde_expanded(raw, crate::shell::paths::env_lookup(env, "HOME"@)) == raw) by {
        if has_prefix(raw, "~/"@) {
            assert(raw[0] == raw.subrange(0, 2)[0]);
        }
        if raw == "~"@ {
            assert(raw[0] == '~');
        }
    }
    lemma_expand_vars_plain(raw, env);
}

proof fn lemma_expand_vars_plain(s: Seq<char>, env: Seq<(String, String)>)
    requires
        forall|k: int| 0 <= k < s.len() ==> s[k] != '$',
    ensures
        expand_vars(s, env) == s,
    decreases s.len(),
{
    if s.len() > 0 {
        let t = s.drop_first();
        assert forall|k: int| 0 <= k < t.len() implies t[k] != '$' by {
            assert(t[k] == s[k + 1]);
        }
        lemma_expand_vars_plain(t, env);
        assert(seq![s[0]] + t =~= s);
    }
}

/// An unhandled middle click on a module without a configured middle-click
/// action refreshes the plugin, and does nothing else.
pub proof fn law_middle_click_refreshes(
    st: ModuleView,
    definition: PluginDefinition,
    popover_visible: bool,
)
    requires
        definition.middle_click == ClickAction::NoAction,
    ensures
        cmd_step(
            st,
            PluginCmd::ActionResult(PluginAction::MiddleClick, PluginActionResult::Unhandled),
            definition,
            popover_visible,
        ) == (st, seq![EffectView::ManualRefresh]),
{
}

/// `hide-if-empty`: after a snapshot the module is hidden only when the
/// plugin reports it invisible and the option is set; without the option a
/// snapshot always leaves it shown.
pub proof fn law_hidden_only_with_hide_if_empty(
    st: ModuleView,
    u: PluginUpdate,
    definition: PluginDefinition,
    popover_visible: bool,
)
    ensures
        ({
            let effects = cmd_step(st, PluginCmd::Snapshot(u), definition, popover_visible).1;
            &&& effects[2] == EffectView::SetVisible(u.visible || !definition.hide_if_empty)
            &&& forall|i: int|
                0 <= i < effects.len() && #[trigger] effects[i] == EffectView::SetVisible(false)
                    ==> !u.visible && definition.hide_if_empty
        }),
{
    let effects = cmd_step(st, PluginCmd::Snapshot(u), definition, popover_visible).1;
    assert forall|i: int|
        0 <= i < effects.len() && #[trigger] effects[i] == EffectView::SetVisible(false)
            implies !u.visible && definition.hide_if_empty by {
        if i != 2 {
            assert(!(effects[i] is SetVisible));
        }
    }
}

/// A `once` style applies once: after one has been applied, every later
/// `once` style leaves the module as it is and does nothing.
pub proof fn law_once_style_applies_once(st: ModuleView, first: PluginStyle, later: PluginStyle)
    requires
        first.once,
        later.once,
    ensures
        style_step(style_step(st, first).0, later) == (style_step(st, first).0, Seq::<
            EffectView,
        >::empty()),
{
}

/// CSS is loaded once: a style that repeats the CSS last loaded loads
/// nothing.
pub proof fn law_css_loaded_once(st: ModuleView, first: PluginStyle, later: PluginStyle, css: String)
    requires
        first.css == Some(css),
        later.css == Some(css),
        !(first.once && st.style_once_applied),
    ensures
        !style_step(style_step(st, first).0, later).1.contains(EffectView::LoadCss(css@)),
{
    let st1 = style_step(st, first).0;
    let e = style_step(st1, later).1;
    if e.contains(EffectView::LoadCss(css@)) {
        let k = choose|k: int| 0 <= k < e.len() && e[k] == EffectView::LoadCss(css@);
        assert(e[k] != EffectView::LoadCss(css@));
    }
}

/// Every non-blank entry of the prefix list counts: with `command.exec`
/// granted, a command whose trimmed text starts with the trimmed prefix at
/// any position of the list is allowed.
pub proof fn law_any_listed_prefix_allows(
    capabilities: Seq<String>,
    prefixes: Seq<String>,
    command: Seq<char>,
    i: int,
)
    requires
        contains_text(capabilities, "command.exec"@),
        0 <= i < prefixes.len(),
        trimmed(prefixes[i]@).len() > 0,
        has_prefix(trimmed(command), trimmed(prefixes[i]@)),
    ensures
        command_allowed(capabilities, prefixes, command),
{
    assert(trimmed((prefixes[i])@).len() > 0);
}

/// Adding prefixes to the list, before or after the others, never takes
/// an allowed command away.
pub proof fn law_more_prefixes_allow_more(
    capabilities: Seq<String>,
    prefixes: Seq<String>,
    extra: Seq<String>,
    command: Seq<char>,
)
    requires
        command_allowed(capabilities, prefixes, command),
    ensures
        command_allowed(capabilities, extra + prefixes, command),
        command_allowed(capabilities, prefixes + extra, command),
{
    let i = choose|i: int|
        0 <= i < prefixes.len() && trimmed((#[trigger] prefixes[i])@).len() > 0 && has_prefix(
            trimmed(command),
            trimmed(prefixes[i]@),
        );
    assert((extra + prefixes)[extra.len() + i] == prefixes[i]);
    assert((prefixes + extra)[i] == prefixes[i]);
    law_any_listed_prefix_allows(capabilities, extra + prefixes, command, extra.len() + i);
    law_any_listed_prefix_allows(capabilities, prefixes + extra, command, i);
}

/// The prefix list and the capabilities fall back to the manifest each on
/// its own: an empty configured prefix list takes the manifest's prefixes,
/// whether or not capabilities are configured, and a non-empty one is kept.
pub proof fn law_prefixes_fall_back_alone(
    definition: PluginDefinition,
    manifest_capabilities: Seq<String>,
    manifest_prefixes: Seq<String>,
    policy: PluginDefinition,
    command: Seq<char>,
)
    requires
        effective(definition, manifest_capabilities, manifest_prefixes, policy),
    ensures
        definition.command_exec_allowed_prefixes@.len() == 0 ==> policy.command_exec_allowed_prefixes@
            == manifest_prefixes,
        definition.command_exec_allowed_prefixes@.len() > 0 ==> policy.command_exec_allowed_prefixes@
            == definition.command_exec_allowed_prefixes@,
        definition.capabilities@.len() == 0 ==> policy.capabilities@ == manifest_capabilities,
        definition.capabilities@.len() > 0 ==> policy.capabilities@ == definition.capabilities@,
        definition.capabilities@.len() > 0 && definition.command_exec_allowed_prefixes@.len() == 0
            ==> (definition_allows(policy, command) == command_allowed(
            definition.capabilities@,
            manifest_prefixes,
            command,
        )),
{
}

/// Each interaction is routed to its own configured action, and changing
/// the action of one interaction leaves the others as they were.
pub proof fn law_each_interaction_has_its_own_action(
    definition: PluginDefinition,
    action: PluginAction,
    other: ClickAction,
)
    ensures
        configured_action(definition, PluginAction::LeftClick) == definition.left_click,
        configured_action(definition, PluginAction::RightClick) == definition.right_click,
        configured_action(definition, PluginAction::MiddleClick) == definition.middle_click,
        configured_action(definition, PluginAction::ScrollUp) == definition.scroll_up,
        configured_action(definition, PluginAction::ScrollDown) == definition.scroll_down,
        action != PluginAction::ScrollUp ==> configured_action(
            PluginDefinition { scroll_up: other, ..definition },
            action,
        ) == configured_action(definition, action),
        action != PluginAction::ScrollDown ==> configured_action(
            PluginDefinition { scroll_down: other, ..definition },
            action,
        ) == configured_action(definition, action),
        action != PluginAction::LeftClick ==> configured_action(
            PluginDefinition { left_click: other, ..definition },
            action,
        ) == configured_action(definition, action),
        action != PluginAction::RightClick ==> configured_action(
            PluginDefinition { right_click: other, ..definition },
            action,
        ) == configured_action(definition, action),
        action != PluginAction::MiddleClick ==> configured_action(
            PluginDefinition { middle_click: other, ..definition },
            action,
        ) == configured_action(definition, action),
{
}

/// A dropdown without rows shows the plugin's own empty label when it is
/// not blank, and `No items` otherwise.
pub proof fn law_empty_dropdown_text(
    dropdown: PluginDropdown,
    definition: PluginDefinition,
    plan: DropdownPlan,
)
    requires
        dropdown.items@.len() == 0,
        planned(dropdown, definition, plan),
    ensures
        match dropdown.empty_label {
            Some(l) => !is_blank(l@) ==> (plan.body matches DropdownBody::Empty(t) && t@ == l@),
            None => true,
        },
        (match dropdown.empty_label {
            Some(l) => is_blank(l@),
            None => true,
        }) ==> (plan.body matches DropdownBody::Empty(t) && t@ == "No items"@),
{
}

/// Plain text does not stop expansion: text without `$` in front of the
/// rest is kept as it is, and the rest is expanded.
pub proof fn law_plain_text_then_expansion(
    plain: Seq<char>,
    rest: Seq<char>,
    env: Seq<(String, String)>,
)
    requires
        forall|k: int| 0 <= k < plain.len() ==> plain[k] != '$',
    ensures
        expand_vars(plain + rest, env) == plain + expand_vars(rest, env),
        (plain + rest).len() > 0 && (plain + rest)[0] != '~' ==> expanded_path(plain + rest, env)
            == plain + expand_vars(rest, env),
    decreases plain.len(),
{
    if plain.len() > 0 {
        let t = plain.drop_first();
        assert forall|k: int| 0 <= k < t.len() implies t[k] != '$' by {
            assert(t[k] == plain[k + 1]);
        }
        law_plain_text_then_expansion(t, rest, env);
        assert((plain + rest).drop_first() =~= t + rest);
        assert((plain + rest)[0] == plain[0]);
        assert(seq![plain[0]] + (t + expand_vars(rest, env)) =~= plain + expand_vars(rest, env));
    } else {
        assert(plain + rest =~= rest);
        assert(plain + expand_vars(rest, env) =~= expand_vars(rest, env));
    }
    if (plain + rest).len() > 0 && (plain + rest)[0] != '~' {
        reveal_strlit("~/");
        reveal_strlit("~");
        let raw = plain + rest;
        assert(tilde_expanded(raw, env_lookup(env, "HOME"@)) == raw) by {
            if has_prefix(raw, "~/"@) {
                assert(raw[0] == raw.subrange(0, 2)[0]);
            }
            if raw == "~"@ {
                assert(raw[0] == '~');
            }
        }
    }
}

/// A set variable is replaced by its value: `$NAME`, where the name is a
/// run of alphanumeric or `_` characters, not starting with `{`, that the
/// text does not continue, and `${NAME}`, where the name holds no `}`.
pub proof fn law_set_variable_replaced(
    name: Seq<char>,
    value: Seq<char>,
    rest: Seq<char>,
    env: Seq<(String, String)>,
)
    requires
        env_lookup(env, name) == Some(value),
    ensures
        name.len() > 0 && name[0] != '{' && (forall|k: int|
            0 <= k < name.len() ==> is_name_char(#[trigger] name[k])) && (rest.len() == 0
            || !is_name_char(rest[0])) ==> expand_vars(
            seq!['$'] + name + rest,
            env,
        ) == value + expand_vars(rest, env),
        (forall|k: int| 0 <= k < name.len() ==> #[trigger] name[k] != '}') ==> expand_vars(
            seq!['$', '{'] + name + seq!['}'] + rest,
            env,
        ) == value + expand_vars(rest, env),
{
    if name.len() > 0 && name[0] != '{' && (forall|k: int|
        0 <= k < name.len() ==> is_name_char(#[trigger] name[k])) && (rest.len() == 0
        || !is_name_char(rest[0])) {
        let s = seq!['$'] + name + rest;
        let r = s.drop_first();
        assert(r =~= name + rest);
        assert(r[0] == name[0]);
        assert forall|t: int| 0 <= t < name.len() implies is_name_char(#[trigger] r[t]) by {
            assert(r[t] == name[t]);
        }
        if name.len() < r.len() {
            assert(r[name.len() as int] == rest[0]);
        }
        lemma_name_len(r, name.len() as int);
        assert(r.subrange(0, name.len() as int) =~= name);
        assert(r.subrange(name.len() as int, r.len() as int) =~= rest);
    }
    if forall|k: int| 0 <= k < name.len() ==> #[trigger] name[k] != '}' {
        let s = seq!['$', '{'] + name + seq!['}'] + rest;
        let r = s.drop_first();
        let body = r.drop_first();
        assert(body =~= name + seq!['}'] + rest);
        assert forall|t: int| 0 <= t < name.len() implies #[trigger] body[t] != '}' by {
            assert(body[t] == name[t]);
        }
        assert(body[name.len() as int] == '}');
        lemma_index_of(body, '}', name.len() as int);
        assert(body.subrange(0, name.len() as int) =~= name);
        assert(body.subrange(name.len() as int + 1, body.len() as int) =~= rest);
    }
}

} // verus!
