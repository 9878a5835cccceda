//! The runtime's policy decisions: the effective command policy, what the
//! host answers a plugin's command request, which dropdown row actions are
//! enabled and what running one does.

use vstd::prelude::*;

use crate::config::{contains_text, definition_allows, PluginDefinition};
use crate::shell::registry::PluginRowAction;
use crate::text::{
    decimal, decimal_text, has_prefix, owned, starts_with, str_eq, trim,
    trimmed,
};

verus! {

/// The definition with its command policy completed from the manifest:
/// an empty capability list or prefix list in the configuration is
/// replaced by the manifest's; a non-empty one is kept.
pub open spec fn effective(
    definition: PluginDefinition,
    manifest_capabilities: Seq<String>,
    manifest_prefixes: Seq<String>,
    r: PluginDefinition,
) -> bool {
    &&& r.capabilities@ == if definition.capabilities@.len() == 0 {
        manifest_capabilities
    } else {
        definition.capabilities@
    }
    &&& r.command_exec_allowed_prefixes@ == if definition.command_exec_allowed_prefixes@.len() == 0 {
        manifest_prefixes
    } else {
        definition.command_exec_allowed_prefixes@
    }
    &&& r == PluginDefinition {
        capabilities: r.capabilities,
        command_exec_allowed_prefixes: r.command_exec_allowed_prefixes,
        ..definition
    }
}

/// The effective policy: configuration first, manifest as fallback.
pub fn effective_policy(
    definition: PluginDefinition,
    manifest_capabilities: Vec<String>,
    manifest_prefixes: Vec<String>,
) -> (r: PluginDefinition)
    ensures
        effective(definition, manifest_capabilities@, manifest_prefixes@, r),
{
    let mut policy = definition;
    if policy.capabilities.len() == 0 && manifest_capabilities.len() != 0 {
        policy.capabilities = manifest_capabilities;
    }
    if policy.command_exec_allowed_prefixes.len() == 0 && manifest_prefixes.len() != 0 {
        policy.command_exec_allowed_prefixes = manifest_prefixes;
    }
    proof {
        if definition.capabilities@.len() == 0 && manifest_capabilities@.len() == 0 {
            assert(policy.capabilities@ =~= manifest_capabilities@);
        }
        if definition.command_exec_allowed_prefixes@.len() == 0 && manifest_prefixes@.len() == 0 {
            assert(policy.command_exec_allowed_prefixes@ =~= manifest_prefixes@);
        }
    }
    policy
}

/// The text that the host writes back to report an error: the error marker,
/// the code, a colon and the message.
pub open spec fn error_reply(code: Seq<char>, message: Seq<char>) -> Seq<char> {
    "__WAYLE_ERROR__:"@ + code + ":"@ + message
}

fn make_error_reply(code: &str, message: &str) -> (r: String)
    ensures
        r@ == error_reply(code@, message@),
{
    let mut r = String::from_str("__WAYLE_ERROR__:");
    r.append(code);
    r.append(":");
    r.append(message);
    r
}

/// The reply to a command request from a plugin without `command.exec`,
/// or `None` when the plugin has it.
pub fn permission_denial(definition: &PluginDefinition) -> (r: Option<String>)
    ensures
        match r {
            Some(reply) => !contains_text(definition.capabilities@, "command.exec"@) && reply@
                == error_reply(
                "WAYLE_ERR_PERMISSION_DENIED"@,
                "missing capability command.exec"@,
            ),
            None => contains_text(definition.capabilities@, "command.exec"@),
        },
{
    if definition.has_capability("command.exec") {
        return None;
    }
    Some(make_error_reply("WAYLE_ERR_PERMISSION_DENIED", "missing capability command.exec"))
}

/// The reply to a command that the prefix policy refuses, or `None` when
/// the command is allowed.
pub fn policy_denial(definition: &PluginDefinition, command: &str) -> (r: Option<String>)
    ensures
        match r {
            Some(reply) => !definition_allows(*definition, command@) && reply@ == error_reply(
                "WAYLE_ERR_POLICY_VIOLATION"@,
                "command not allowed by command-exec-allowed-prefixes"@,
            ),
            None => definition_allows(*definition, command@),
        },
{
    if definition.is_command_allowed(command) {
        return None;
    }
    Some(
        make_error_reply(
            "WAYLE_ERR_POLICY_VIOLATION",
            "command not allowed by command-exec-allowed-prefixes",
        ),
    )
}

/// What the host does with a command request: answer it at once with a
/// refusal, or run the command.
#[derive(Debug, PartialEq, Eq)]
pub enum CommandDecision {
    Reply(String),
    Run(String),
}

/// The host's decision on a command request: a plugin without
/// `command.exec` is refused with `WAYLE_ERR_PERMISSION_DENIED`, a command
/// that the prefix policy refuses with `WAYLE_ERR_POLICY_VIOLATION`, and
/// only a command that the policy allows is run, exactly as requested.
pub fn command_decision(definition: &PluginDefinition, command: String) -> (r: CommandDecision)
    ensures
        match r {
            CommandDecision::Run(c) => definition_allows(*definition, command@) && c == command,
            CommandDecision::Reply(reply) => !definition_allows(*definition, command@) && reply@ == if contains_text(
                definition.capabilities@,
                "command.exec"@,
            ) {
                error_reply(
                    "WAYLE_ERR_POLICY_VIOLATION"@,
                    "command not allowed by command-exec-allowed-prefixes"@,
                )
            } else {
                error_reply("WAYLE_ERR_PERMISSION_DENIED"@, "missing capability command.exec"@)
            },
        },
{
    match permission_denial(definition) {
        Some(reply) => return CommandDecision::Reply(reply),
        None => {},
    }
    match policy_denial(definition, command.as_str()) {
        Some(reply) => CommandDecision::Reply(reply),
        None => CommandDecision::Run(command),
    }
}

/// The reply to an allowed command: its output, or the failure reported as
/// `WAYLE_ERR_UNAVAILABLE`.
pub fn execution_reply(result: Result<String, String>) -> (r: String)
    ensures
        match result {
            Ok(output) => r == output,
            Err(e) => r@ == error_reply("WAYLE_ERR_UNAVAILABLE"@, e@),
        },
{
    match result {
        Ok(output) => output,
        Err(e) => make_error_reply("WAYLE_ERR_UNAVAILABLE", e.as_str()),
    }
}

/// A dropdown row action is enabled when the effective policy grants what
/// it needs: commands need the command policy, URLs `net.http.get` and an
/// `http(s)://` scheme, clipboard text `clipboard.write`; custom payloads
/// and refreshes are always enabled.
pub open spec fn row_action_allowed(action: PluginRowAction, definition: PluginDefinition) -> bool {
    match action {
        PluginRowAction::RunCommand { command } => definition_allows(definition, command@),
        PluginRowAction::LegacyCommand(command) => definition_allows(definition, command@),
        PluginRowAction::OpenUrl { url } => contains_text(
            definition.capabilities@,
            "net.http.get"@,
        ) && (has_prefix(url@, "https://"@) || has_prefix(url@, "http://"@)),
        PluginRowAction::CopyText { .. } => contains_text(
            definition.capabilities@,
            "clipboard.write"@,
        ),
        PluginRowAction::Custom { .. } => true,
        PluginRowAction::RefreshNow => true,
    }
}

/// Whether a dropdown row action is enabled under `definition`.
pub fn validate_row_action(action: &PluginRowAction, definition: &PluginDefinition) -> (r: bool)
    ensures
        r == row_action_allowed(*action, *definition),
{
    match action {
        PluginRowAction::RunCommand { command } => definition.is_command_allowed(command.as_str()),
        PluginRowAction::LegacyCommand(command) => definition.is_command_allowed(command.as_str()),
        PluginRowAction::OpenUrl { url } => definition.has_capability("net.http.get") && (
        starts_with(url.as_str(), "https://") || starts_with(url.as_str(), "http://")),
        PluginRowAction::CopyText { .. } => definition.has_capability("clipboard.write"),
        PluginRowAction::Custom { .. } => true,
        PluginRowAction::RefreshNow => true,
    }
}

/// `s` with every `'` replaced by `'"'"'`, so that it can stand between
/// single quotes in a shell command.
pub open spec fn single_quote_escaped(s: Seq<char>) -> Seq<char>
    decreases s.len(),
{
    if s.len() == 0 {
        Seq::empty()
    } else {
        single_quote_escaped(s.drop_last()) + if s.last() == '\'' {
            "'\"'\"'"@
        } else {
            seq![s.last()]
        }
    }
}

/// Escapes single quotes for a single-quoted shell word.
pub fn shell_quote_single(input: &str) -> (r: String)
    ensures
        r@ == single_quote_escaped(input@),
{
    let n = input.unicode_len();
    let mut r = String::new();
    let mut seg: usize = 0;
    let mut i: usize = 0;
    while i < n
        invariant
            n == input@.len(),
            seg <= i <= n,
            r@ + input@.subrange(seg as int, i as int) == single_quote_escaped(
                input@.subrange(0, i as int),
            ),
        decreases n - i,
    {
        let c = input.get_char(i);
        proof {
            let t = input@.subrange(0, i + 1);
            assert(t.drop_last() =~= input@.subrange(0, i as int));
            assert(t.last() == c);
        }
        if c == '\'' {
            r.append(input.substring_char(seg, i));
            r.append("'\"'\"'");
            seg = i + 1;
            assert(input@.subrange(seg as int, seg as int) =~= Seq::<char>::empty());
            assert(r@ + input@.subrange(seg as int, seg as int) =~= r@);
        } else {
            assert(input@.subrange(seg as int, i + 1) =~= input@.subrange(seg as int, i as int).push(
                c,
            ));
        }
        i = i + 1;
    }
    r.append(input.substring_char(seg, n));
    assert(input@.subrange(0, n as int) =~= input@);
    r
}

/// What running a dropdown row action does.
#[derive(Debug)]
pub enum RowEffect {
    /// Run this shell command.
    Shell(String),
    /// Hand this payload back to the plugin's `on_row_action`.
    Custom(String),
    /// Refresh the plugin now.
    Refresh,
}

/// What running a row action does: commands run as they are; URLs open
/// with `xdg-open` and clipboard text goes through `wl-copy`, each quoted
/// as one single-quoted shell word.
pub open spec fn row_effect_text(action: PluginRowAction) -> (bool, Seq<char>) {
    match action {
        PluginRowAction::RunCommand { command } => (true, command@),
        PluginRowAction::LegacyCommand(command) => (true, command@),
        PluginRowAction::OpenUrl { url } => (
            true,
            "xdg-open '"@ + single_quote_escaped(url@) + "'"@,
        ),
        PluginRowAction::CopyText { text } => (
            true,
            "printf %s '"@ + single_quote_escaped(text@) + "' | wl-copy"@,
        ),
        PluginRowAction::Custom { payload } => (false, payload@),
        PluginRowAction::RefreshNow => (false, Seq::empty()),
    }
}

/// Decides what running a row action does.
pub fn row_effect(action: PluginRowAction) -> (r: RowEffect)
    ensures
        match r {
            RowEffect::Shell(c) => row_effect_text(action).0 && c@ == row_effect_text(action).1,
            RowEffect::Custom(p) => action matches PluginRowAction::Custom { payload } && p
                == payload,
            RowEffect::Refresh => action matches PluginRowAction::RefreshNow,
        },
{
    match action {
        PluginRowAction::RunCommand { command } => RowEffect::Shell(command),
        PluginRowAction::LegacyCommand(command) => RowEffect::Shell(command),
        PluginRowAction::OpenUrl { url } => {
            let mut c = String::from_str("xdg-open '");
            c.append(shell_quote_single(url.as_str()).as_str());
            c.append("'");
            RowEffect::Shell(c)
        },
        PluginRowAction::CopyText { text } => {
            let mut c = String::from_str("printf %s '");
            c.append(shell_quote_single(text.as_str()).as_str());
            c.append("' | wl-copy");
            RowEffect::Shell(c)
        },
        PluginRowAction::Custom { payload } => RowEffect::Custom(payload),
        PluginRowAction::RefreshNow => RowEffect::Refresh,
    }
}

/// The timeout of one WASM call: the configured one, at least 1 ms.
pub fn call_timeout_ms(definition: &PluginDefinition) -> (r: u64)
    ensures
        r == if definition.wasm_timeout_ms < 1 {
            1
        } else {
            definition.wasm_timeout_ms
        },
{
    if definition.wasm_timeout_ms < 1 {
        1
    } else {
        definition.wasm_timeout_ms
    }
}

/// The index of the first enabled definition with this id
/// (`Factory::create_for_id`).
pub fn find_enabled_definition(definitions: &Vec<PluginDefinition>, id: &str) -> (r: Option<usize>)
    ensures
        match r {
            Some(i) => i < definitions@.len() && definitions@[i as int].id@ == id@
                && definitions@[i as int].enabled && forall|k: int|
                0 <= k < i ==> !((#[trigger] definitions@[k]).id@ == id@ && definitions@[k].enabled),
            None => forall|k: int|
                0 <= k < definitions@.len() ==> !((#[trigger] definitions@[k]).id@ == id@
                    && definitions@[k].enabled),
        },
{
    let n = definitions.len();
    let mut i: usize = 0;
    while i < n
        invariant
            n == definitions@.len(),
            i <= n,
            forall|k: int|
                0 <= k < i ==> !((#[trigger] definitions@[k]).id@ == id@ && definitions@[k].enabled),
        decreases n - i,
    {
        if str_eq(definitions[i].id.as_str(), id) && definitions[i].enabled {
            return Some(i);
        }
        i = i + 1;
    }
    None
}

/// The refusal of a module whose ABI version is not `1`.
pub open spec fn abi_verdict(version: i32) -> Result<(), Seq<char>> {
    if version == 1 {
        Ok(())
    } else {
        Err(
            "unsupported plugin ABI version "@ + decimal_text(version as int) + ", expected "@
                + decimal_text(1),
        )
    }
}

/// Accepts only modules that report ABI version `1`.
pub fn check_abi_version(version: i32) -> (r: Result<(), String>)
    ensures
        match r {
            Ok(()) => abi_verdict(version) is Ok,
            Err(m) => abi_verdict(version) == Err::<(), Seq<char>>(m@),
        },
{
    if version == crate::sdk::types::PLUGIN_ABI_VERSION {
        return Ok(());
    }
    let mut m = String::from_str("unsupported plugin ABI version ");
    m.append(decimal(version as i64).as_str());
    m.append(", expected ");
    m.append(decimal(1).as_str());
    Err(m)
}

/// The error for a shell command that exited unsuccessfully: its trimmed
/// standard error, or, when that is empty, the exit status as `Debug`
/// prints an `Option<i32>`.
pub open spec fn failure_text(stderr: Seq<char>, code: Option<i32>) -> Seq<char> {
    if trimmed(stderr).len() > 0 {
        trimmed(stderr)
    } else {
        "command exited with status "@ + match code {
            Some(c) => "Some("@ + decimal_text(c as int) + ")"@,
            None => "None"@,
        }
    }
}

/// Describes a failed shell command.
pub fn shell_failure_message(stderr: &str, code: Option<i32>) -> (r: String)
    ensures
        r@ == failure_text(stderr@, code),
{
    let t = trim(stderr);
    if t.unicode_len() > 0 {
        return owned(t);
    }
    let mut m = String::from_str("command exited with status ");
    match code {
        Some(c) => {
            m.append("Some(");
            m.append(decimal(c as i64).as_str());
            m.append(")");
        },
        None => {
            m.append("None");
        },
    }
    m
}

/// The name, version and author shown when a plugin is lazily loaded:
/// manifest values, with the plugin id and `unknown` as fallbacks.
pub fn lazy_load_banner(
    plugin_id: &str,
    name: Option<String>,
    author: Option<String>,
    version: Option<String>,
) -> (r: (String, String, String))
    ensures
        r.0@ == match name {
            Some(n) => n@,
            None => plugin_id@,
        },
        r.1@ == match version {
            Some(v) => v@,
            None => "unknown"@,
        },
        r.2@ == match author {
            Some(a) => a@,
            None => "unknown"@,
        },
{
    let n = match name {
        Some(n) => n,
        None => owned(plugin_id),
    };
    let v = match version {
        Some(v) => v,
        None => String::from_str("unknown"),
    };
    let a = match author {
        Some(a) => a,
        None => String::from_str("unknown"),
    };
    (n, v, a)
}

/// The plugin ids whose lazy load has been announced.
pub struct LazyInitLog {
    logged: Vec<String>,
}

impl View for LazyInitLog {
    type V = Set<Seq<char>>;

    closed spec fn view(&self) -> Set<Seq<char>> {
        self.logged@.map_values(|s: String| s@).to_set()
    }
}

impl LazyInitLog {
    /// A log in which nothing has been announced.
    pub fn new() -> (r: Self)
        ensures
            r@ == Set::<Seq<char>>::empty(),
    {
        let r = LazyInitLog { logged: Vec::new() };
        assert(r@ =~= Set::<Seq<char>>::empty());
        r
    }

    /// Whether to announce the lazy load of `plugin_id`: only the first time.
    pub fn should_log(&mut self, plugin_id: &str) -> (r: bool)
        ensures
            r == !old(self)@.contains(plugin_id@),
            final(self)@ == old(self)@.insert(plugin_id@),
    {
        let n = self.logged.len();
        let mut i: usize = 0;
        while i < n
            invariant
                n == self.logged@.len(),
                i <= n,
                forall|k: int| 0 <= k < i ==> (#[trigger] self.logged@[k])@ != plugin_id@,
            decreases n - i,
        {
            if str_eq(self.logged[i].as_str(), plugin_id) {
                proof {
                    let m = self.logged@.map_values(|s: String| s@);
                    assert(m[i as int] == plugin_id@);
                    assert(self@.contains(plugin_id@));
                    assert(self@.insert(plugin_id@) =~= self@);
                }
                return false;
            }
            i = i + 1;
        }
        let ghost before = self.logged@;
        proof {
            let m = before.map_values(|s: String| s@);
            assert(!m.contains(plugin_id@)) by {
                if m.contains(plugin_id@) {
                    let k = choose|k: int| 0 <= k < m.len() && m[k] == plugin_id@;
                    assert(before[k]@ == plugin_id@);
                }
            }
        }
        self.logged.push(owned(plugin_id));
        proof {
            let m0 = before.map_values(|s: String| s@);
            let m1 = self.logged@.map_values(|s: String| s@);
            assert(m1 =~= m0.push(plugin_id@));
            assert forall|x: Seq<char>| m1.to_set().contains(x) == m0.to_set().insert(
                plugin_id@,
            ).contains(x) by {
                if m1.contains(x) {
                    let k = choose|k: int| 0 <= k < m1.len() && m1[k] == x;
                    if k < m0.len() {
                        assert(m0[k] == x);
                    }
                }
                if m0.contains(x) {
                    let k = choose|k: int| 0 <= k < m0.len() && m0[k] == x;
                    assert(m1[k] == x);
                }
                if x == plugin_id@ {
                    assert(m1[m0.len() as int] == x);
                }
            }
            assert(self@ =~= old(self)@.insert(plugin_id@));
        }
        true
    }
}

} // verus!
