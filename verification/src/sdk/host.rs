//! Host errors, the decoding of what the host answers `run_command_utf8`,
//! and the packing of (pointer, length) pairs into one `i64`.

use vstd::prelude::*;
use vstd::string::*;

use crate::text::{has_prefix, owned, starts_with, str_eq};

verus! {

/// A typed error from a host call.
#[derive(Debug, Clone, PartialEq, Eq)]
pub enum HostError {
    PermissionDenied(String),
    PolicyViolation(String),
    InvalidAction(String),
    Unavailable(String),
    UnknownCode { code: String, message: String },
    Legacy(String),
}

/// A host error with its texts as character sequences.
pub enum HostErrorView {
    PermissionDenied(Seq<char>),
    PolicyViolation(Seq<char>),
    InvalidAction(Seq<char>),
    Unavailable(Seq<char>),
    UnknownCode(Seq<char>, Seq<char>),
    Legacy(Seq<char>),
}

impl View for HostError {
    type V = HostErrorView;

    open spec fn view(&self) -> HostErrorView {
        match self {
            HostError::PermissionDenied(m) => HostErrorView::PermissionDenied(m@),
            HostError::PolicyViolation(m) => HostErrorView::PolicyViolation(m@),
            HostError::InvalidAction(m) => HostErrorView::InvalidAction(m@),
            HostError::Unavailable(m) => HostErrorView::Unavailable(m@),
            HostError::UnknownCode { code, message } => HostErrorView::UnknownCode(code@, message@),
            HostError::Legacy(m) => HostErrorView::Legacy(m@),
        }
    }
}

/// The result of a typed host call.
pub type HostResult<T> = Result<T, HostError>;

/// A host result with its texts as character sequences.
pub open spec fn host_result_view(r: HostResult<String>) -> Result<Seq<char>, HostErrorView> {
    match r {
        Ok(s) => Ok(s@),
        Err(e) => Err(e@),
    }
}

/// What `Display` prints for a host error: the message, preceded by the
/// code and a colon for an unknown code.
pub open spec fn host_error_message(e: HostErrorView) -> Seq<char> {
    match e {
        HostErrorView::PermissionDenied(m) => m,
        HostErrorView::PolicyViolation(m) => m,
        HostErrorView::InvalidAction(m) => m,
        HostErrorView::Unavailable(m) => m,
        HostErrorView::UnknownCode(c, m) => c + ":"@ + m,
        HostErrorView::Legacy(m) => m,
    }
}

impl HostError {
    /// The human-readable text (what `Display` prints).
    pub fn to_message(&self) -> (r: String)
        ensures
            r@ == host_error_message(self@),
    {
        match self {
            HostError::PermissionDenied(m) => m.clone(),
            HostError::PolicyViolation(m) => m.clone(),
            HostError::InvalidAction(m) => m.clone(),
            HostError::Unavailable(m) => m.clone(),
            HostError::UnknownCode { code, message } => {
                let mut r = code.clone();
                r.append(":");
                r.append(message.as_str());
                r
            },
            HostError::Legacy(m) => m.clone(),
        }
    }
}

/// The index of the first `c` in `s`, or `s.len()` if there is none.
pub open spec fn index_of(s: Seq<char>, c: char) -> int
    decreases s.len(),
{
    if s.len() == 0 {
        0
    } else if s[0] == c {
        0
    } else {
        1 + index_of(s.drop_first(), c)
    }
}

/// The first index of a character lies within the sequence's bounds.
pub proof fn lemma_index_of_bounds(s: Seq<char>, c: char)
    ensures
        0 <= index_of(s, c) <= s.len(),
    decreases s.len(),
{
    if s.len() > 0 && s[0] != c {
        lemma_index_of_bounds(s.drop_first(), c);
    }
}

pub proof fn lemma_index_of(s: Seq<char>, c: char, i: int)
    requires
        0 <= i <= s.len(),
        forall|k: int| 0 <= k < i ==> s[k] != c,
        i < s.len() ==> s[i] == c,
    ensures
        index_of(s, c) == i,
    decreases s.len(),
{
    if s.len() > 0 && s[0] != c {
        let t = s.drop_first();
        assert forall|k: int| 0 <= k < i - 1 implies t[k] != c by {
            assert(t[k] == s[k + 1]);
        }
        if i - 1 < t.len() {
            assert(t[i - 1] == s[i]);
        }
        lemma_index_of(t, c, i - 1);
    }
}

/// The index of the first `c` in `s`, or its length if there is none.
pub fn find_char(s: &str, c: char) -> (r: usize)
    ensures
        r as int == index_of(s@, c),
        r <= s@.len(),
{
    let n = s.unicode_len();
    let mut i: usize = 0;
    while i < n && s.get_char(i) != c
        invariant
            n == s@.len(),
            i <= n,
            forall|k: int| 0 <= k < i ==> s@[k] != c,
        decreases n - i,
    {
        i = i + 1;
    }
    proof {
        lemma_index_of(s@, c, i as int);
    }
    i
}

/// The error that a host error string stands for. A string of the form
/// `CODE:message` with one of the four known codes gives that error; with
/// another code that starts with `WAYLE_ERR_` it gives `UnknownCode`;
/// anything else (no colon, or another prefix) is kept whole as `Legacy`.
pub open spec fn parsed_host_error(raw: Seq<char>) -> HostErrorView {
    let k = index_of(raw, ':');
    if k >= raw.len() {
        HostErrorView::Legacy(raw)
    } else {
        let code = raw.subrange(0, k);
        let message = raw.subrange(k + 1, raw.len() as int);
        if code == "WAYLE_ERR_PERMISSION_DENIED"@ {
            HostErrorView::PermissionDenied(message)
        } else if code == "WAYLE_ERR_POLICY_VIOLATION"@ {
            HostErrorView::PolicyViolation(message)
        } else if code == "WAYLE_ERR_INVALID_ACTION"@ {
            HostErrorView::InvalidAction(message)
        } else if code == "WAYLE_ERR_UNAVAILABLE"@ {
            HostErrorView::Unavailable(message)
        } else if has_prefix(code, "WAYLE_ERR_"@) {
            HostErrorView::UnknownCode(code, message)
        } else {
            HostErrorView::Legacy(raw)
        }
    }
}

/// Decodes the error text after the host's error marker.
pub fn parse_host_error(raw: &str) -> (r: HostError)
    ensures
        r@ == parsed_host_error(raw@),
{
    let n = raw.unicode_len();
    let k = find_char(raw, ':');
    if k >= n {
        return HostError::Legacy(owned(raw));
    }
    let code = raw.substring_char(0, k);
    let message = raw.substring_char(k + 1, n);
    if str_eq(code, "WAYLE_ERR_PERMISSION_DENIED") {
        HostError::PermissionDenied(owned(message))
    } else if str_eq(code, "WAYLE_ERR_POLICY_VIOLATION") {
        HostError::PolicyViolation(owned(message))
    } else if str_eq(code, "WAYLE_ERR_INVALID_ACTION") {
        HostError::InvalidAction(owned(message))
    } else if str_eq(code, "WAYLE_ERR_UNAVAILABLE") {
        HostError::Unavailable(owned(message))
    } else if starts_with(code, "WAYLE_ERR_") {
        HostError::UnknownCode { code: owned(code), message: owned(message) }
    } else {
        HostError::Legacy(owned(raw))
    }
}

/// `s` without trailing NUL characters (`trim_end_matches('\0')`).
pub open spec fn without_trailing_nuls(s: Seq<char>) -> Seq<char>
    decreases s.len(),
{
    if s.len() > 0 && s.last() == '\0' {
        without_trailing_nuls(s.drop_last())
    } else {
        s
    }
}

proof fn lemma_without_trailing_nuls(s: Seq<char>, j: int)
    requires
        0 <= j <= s.len(),
        forall|k: int| j <= k < s.len() ==> s[k] == '\0',
        j > 0 ==> s[j - 1] != '\0',
    ensures
        without_trailing_nuls(s) == s.subrange(0, j),
    decreases s.len(),
{
    if s.len() > 0 && s.last() == '\0' {
        assert(j < s.len());
        let t = s.drop_last();
        assert forall|k: int| j <= k < t.len() implies t[k] == '\0' by {
            assert(t[k] == s[k]);
        }
        lemma_without_trailing_nuls(t, j);
        assert(t.subrange(0, j) =~= s.subrange(0, j));
    } else {
        assert(j == s.len()) by {
            if j < s.len() {
                assert(s[s.len() - 1] == '\0');
            }
        }
        assert(s.subrange(0, j) =~= s);
    }
}

/// What a successful reply of `run_command_utf8` decodes to: the text
/// without trailing NULs, or, when that text starts with the host's error
/// marker `__WAYLE_ERROR__:`, the error that the rest stands for.
pub open spec fn output_verdict(output: Seq<char>) -> Result<Seq<char>, HostErrorView> {
    let t = without_trailing_nuls(output);
    let marker = "__WAYLE_ERROR__:"@;
    if has_prefix(t, marker) {
        Err(parsed_host_error(t.subrange(marker.len() as int, t.len() as int)))
    } else {
        Ok(t)
    }
}

/// Decodes the text that the host wrote back for a command.
pub fn command_output_result(output: &str) -> (r: HostResult<String>)
    ensures
        host_result_view(r) == output_verdict(output@),
{
    let n = output.unicode_len();
    let mut j: usize = n;
    while j > 0 && output.get_char(j - 1) == '\0'
        invariant
            n == output@.len(),
            j <= n,
            forall|k: int| j <= k < n ==> output@[k] == '\0',
        decreases j,
    {
        j = j - 1;
    }
    proof {
        lemma_without_trailing_nuls(output@, j as int);
    }
    let t = output.substring_char(0, j);
    let marker = "__WAYLE_ERROR__:";
    if starts_with(t, marker) {
        let m = marker.unicode_len();
        let rest = t.substring_char(m, j);
        return Err(parse_host_error(rest));
    }
    Ok(owned(t))
}

/// The answer to a command run through the host: `packed` is what
/// `run_command_utf8` returned and `payload` what reading it gave.
pub open spec fn command_reply_verdict(packed: i64, payload: Result<Seq<char>, Seq<char>>) -> Result<
    Seq<char>,
    HostErrorView,
> {
    if packed == 0 {
        Err(HostErrorView::Unavailable("host command returned no output"@))
    } else {
        match payload {
            Err(e) => Err(HostErrorView::Unavailable(e)),
            Ok(o) => output_verdict(o),
        }
    }
}

/// The characters of a `Result<String, String>`.
pub open spec fn text_result_view(r: Result<String, String>) -> Result<Seq<char>, Seq<char>> {
    match r {
        Ok(s) => Ok(s@),
        Err(e) => Err(e@),
    }
}

/// Turns the host's reply to a command into the typed result of
/// `host::run_command_typed`.
pub fn run_command_reply(packed: i64, payload: Result<String, String>) -> (r: HostResult<String>)
    ensures
        host_result_view(r) == command_reply_verdict(packed, text_result_view(payload)),
{
    if packed == 0 {
        return Err(HostError::Unavailable(String::from_str("host command returned no output")));
    }
    match payload {
        Err(e) => Err(HostError::Unavailable(e)),
        Ok(o) => command_output_result(o.as_str()),
    }
}

/// The length of a command as the `i32` that crosses the ABI; a command
/// longer than `i32::MAX` bytes is refused.
pub fn command_len(command: &str) -> (r: HostResult<i32>)
    ensures
        match r {
            Ok(l) => l as int == command.len() as int,
            Err(e) => command.len() > i32::MAX && e@ == HostErrorView::InvalidAction(
                "command too large"@,
            ),
        },
{
    let len = command.len();
    if len > 2147483647usize {
        return Err(HostError::InvalidAction(String::from_str("command too large")));
    }
    Ok(len as i32)
}

/// The plain-string form of a typed result (`host::run_command`).
pub fn plain_result(r: HostResult<String>) -> (p: Result<String, String>)
    ensures
        match r {
            Ok(o) => p == Ok::<String, String>(o),
            Err(e) => p matches Err(m) && m@ == host_error_message(e@),
        },
{
    match r {
        Ok(o) => Ok(o),
        Err(e) => Err(e.to_message()),
    }
}

/// The `i64` that carries a pointer in its high and a length in its low 32
/// bits: `ptr * 2^32 + (len as u32)`.
pub open spec fn packed_value(ptr: i32, len: i32) -> int {
    ptr as int * 0x1_0000_0000 + (len as u32) as int
}

/// Packs a pointer and a length as the ABI returns them.
pub fn pack_payload(ptr: i32, len: i32) -> (r: i64)
    ensures
        r as int == packed_value(ptr, len),
{
    let r = ((ptr as i64) << 32) | ((len as u32) as i64);
    assert(r as int == ptr as int * 0x1_0000_0000 + (len as u32) as int) by (bit_vector)
        requires
            r == ((ptr as i64) << 32) | ((len as u32) as i64),
    ;
    r
}

/// `host::pack`: packs a pointer and a length.
pub fn pack(ptr: i32, len: i32) -> (r: i64)
    ensures
        r as int == packed_value(ptr, len),
{
    pack_payload(ptr, len)
}

/// Splits a packed value into (pointer, length): the high and the low 32
/// bits, each read as unsigned.
pub fn unpack_payload(packed: i64) -> (r: (usize, usize))
    ensures
        r.0 as int == (packed as int / 0x1_0000_0000) % 0x1_0000_0000,
        r.1 as int == packed as int % 0x1_0000_0000,
{
    let hi = (packed >> 32) as u32;
    let lo = packed as u32;
    assert(hi as int == (packed as int / 0x1_0000_0000) % 0x1_0000_0000) by (bit_vector)
        requires
            hi == (packed >> 32) as u32,
    ;
    assert(lo as int == packed as int % 0x1_0000_0000) by (bit_vector)
        requires
            lo == packed as u32,
    ;
    (hi as usize, lo as usize)
}

} // verus!

verus! {

/// The plain-string form of a typed result: the error becomes its message.
pub open spec fn plain_view(r: Result<Seq<char>, HostErrorView>) -> Result<Seq<char>, Seq<char>> {
    match r {
        Ok(o) => Ok(o),
        Err(e) => Err(host_error_message(e)),
    }
}

/// What running `command` through the host gives: a command longer than
/// `i32::MAX` bytes is refused before the host is called; otherwise the
/// host's `run_command_utf8` import is called once with the command and its
/// length, and its packed reply `p` is decoded by `command_reply_verdict`,
/// with `payload` what the read of a non-zero `p` gave.
pub open spec fn command_exchange<S: Fn(&str, i32) -> i64, R: Fn(i64) -> Result<String, String>>(
    send: &S,
    read: &R,
    command: &str,
    r: HostResult<String>,
) -> bool {
    if command.len() > i32::MAX {
        host_result_view(r) == Err::<Seq<char>, HostErrorView>(
            HostErrorView::InvalidAction("command too large"@),
        )
    } else {
        exists|p: i64, payload: Result<String, String>|
            send.ensures((command, command.len() as i32), p) && (p != 0 ==> read.ensures(
                (p,),
                payload,
            )) && host_result_view(r) == command_reply_verdict(p, text_result_view(payload))
    }
}

/// Runs `command` through the host and decodes the reply. `send` is the
/// host's `run_command_utf8` import (the command and its length in, a
/// packed (pointer, length) reply out, `0` for none); `read` reads the
/// UTF-8 text that a packed reply points at.
pub fn run_command_typed<S: Fn(&str, i32) -> i64, R: Fn(i64) -> Result<String, String>>(
    send: &S,
    read: &R,
    command: &str,
) -> (r: HostResult<String>)
    requires
        command.len() <= i32::MAX ==> send.requires((command, command.len() as i32)),
        forall|p: i64| read.requires((p,)),
    ensures
        command_exchange(send, read, command, r),
{
    let len = match command_len(command) {
        Ok(len) => len,
        Err(e) => return Err(e),
    };
    let packed = send(command, len);
    let payload = if packed == 0 {
        Ok(String::new())
    } else {
        read(packed)
    };
    let r = run_command_reply(packed, payload);
    assert(host_result_view(r) == command_reply_verdict(packed, text_result_view(payload)));
    r
}

/// `run_command_typed` with the error turned into its message.
pub fn run_command<S: Fn(&str, i32) -> i64, R: Fn(i64) -> Result<String, String>>(
    send: &S,
    read: &R,
    command: &str,
) -> (r: Result<String, String>)
    requires
        command.len() <= i32::MAX ==> send.requires((command, command.len() as i32)),
        forall|p: i64| read.requires((p,)),
    ensures
        exists|t: HostResult<String>|
            command_exchange(send, read, command, t) && text_result_view(r) == plain_view(
                host_result_view(t),
            ),
{
    let t = run_command_typed(send, read, command);
    let r = plain_result(t);
    assert(text_result_view(r) == plain_view(host_result_view(t)));
    r
}

} // verus!

verus! {

/// `plugin_abi_version`: the ABI version this SDK exports.
pub fn plugin_abi_version() -> (r: i32)
    ensures
        r == crate::sdk::types::PLUGIN_ABI_VERSION,
{
    crate::sdk::types::PLUGIN_ABI_VERSION
}

/// The allocation that `plugin_alloc(len)` makes: none for a length that
/// is not positive.
pub fn allocation_size(len: i32) -> (r: Option<usize>)
    ensures
        match r {
            Some(n) => len > 0 && n as int == len as int,
            None => len <= 0,
        },
{
    if len <= 0 {
        return None;
    }
    Some(len as usize)
}

/// Validates the (pointer, length) pair that the host passes to
/// `read_input`: both must be non-negative.
pub fn input_range(ptr: i32, len: i32) -> (r: Result<(usize, usize), String>)
    ensures
        match r {
            Ok((p, l)) => ptr >= 0 && len >= 0 && p as int == ptr as int && l as int == len as int,
            Err(m) => (ptr < 0 && m@ == "negative pointer"@) || (ptr >= 0 && len < 0 && m@
                == "negative length"@),
        },
{
    if ptr < 0 {
        return Err(String::from_str("negative pointer"));
    }
    if len < 0 {
        return Err(String::from_str("negative length"));
    }
    Ok((ptr as usize, len as usize))
}

/// The length of an encoded payload as it crosses the ABI; a payload
/// longer than `i32::MAX` bytes is not sent (`encode_output`).
pub fn payload_length(len: usize) -> (r: Option<i32>)
    ensures
        match r {
            Some(l) => l as int == len as int,
            None => len > i32::MAX,
        },
{
    if len > 2147483647usize {
        return None;
    }
    Some(len as i32)
}

/// The packed result of `encode_output` and `encode_manifest` once the
/// payload is written at `ptr`: `0` (no payload) when the allocation
/// failed.
pub fn packed_output(ptr: i32, len: i32) -> (r: i64)
    ensures
        ptr <= 0 ==> r == 0,
        ptr > 0 ==> r as int == packed_value(ptr, len),
{
    if ptr <= 0 {
        return 0;
    }
    pack_payload(ptr, len)
}

} // verus!
