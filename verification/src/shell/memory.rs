//! Bounds checks on the plugin's linear memory: every range that the
//! runtime reads or writes is checked here before it touches the memory.

use vstd::prelude::*;

use crate::sdk::host::unpack_payload;

verus! {

/// The verdict on a range `[start, start + len)` of a memory of
/// `memory_len` bytes: `overflow` when the end does not fit in a `usize`,
/// `out_of_bounds` when it lies past the memory, the range otherwise.
pub open spec fn range_verdict(
    start: int,
    len: int,
    memory_len: int,
    overflow: Seq<char>,
    out_of_bounds: Seq<char>,
) -> Result<(int, int), Seq<char>> {
    if start + len > usize::MAX {
        Err(overflow)
    } else if start + len > memory_len {
        Err(out_of_bounds)
    } else {
        Ok((start, start + len))
    }
}

/// A checked range, with its error text as characters.
pub open spec fn range_view(r: Result<(usize, usize), String>) -> Result<(int, int), Seq<char>> {
    match r {
        Ok((a, b)) => Ok((a as int, b as int)),
        Err(m) => Err(m@),
    }
}

fn checked_range(
    start: usize,
    len: usize,
    memory_len: usize,
    overflow: &str,
    out_of_bounds: &str,
) -> (r: Result<(usize, usize), String>)
    ensures
        range_view(r) == range_verdict(
            start as int,
            len as int,
            memory_len as int,
            overflow@,
            out_of_bounds@,
        ),
{
    match start.checked_add(len) {
        None => Err(String::from_str(overflow)),
        Some(end) => {
            if end > memory_len {
                Err(String::from_str(out_of_bounds))
            } else {
                Ok((start, end))
            }
        },
    }
}

/// The range of a refresh or action payload (`read_payload`): no payload,
/// an empty one, or one that does not fit in memory is an error.
pub open spec fn payload_verdict(packed: i64, memory_len: int) -> Result<(int, int), Seq<char>> {
    let ptr = (packed as int / 0x1_0000_0000) % 0x1_0000_0000;
    let len = packed as int % 0x1_0000_0000;
    if packed == 0 {
        Err("WASM payload missing"@)
    } else if len == 0 {
        Err("WASM payload length is zero"@)
    } else {
        range_verdict(
            ptr,
            len,
            memory_len,
            "WASM payload range overflow"@,
            "WASM payload range out of memory bounds"@,
        )
    }
}

/// Checks the range of a payload in a memory of `memory_len` bytes.
pub fn payload_range(packed: i64, memory_len: usize) -> (r: Result<(usize, usize), String>)
    ensures
        range_view(r) == payload_verdict(packed, memory_len as int),
{
    if packed == 0 {
        return Err(String::from_str("WASM payload missing"));
    }
    let (ptr, len) = unpack_payload(packed);
    if len == 0 {
        return Err(String::from_str("WASM payload length is zero"));
    }
    checked_range(
        ptr,
        len,
        memory_len,
        "WASM payload range overflow",
        "WASM payload range out of memory bounds",
    )
}

/// The range of a manifest payload (`load_manifest` and
/// `read_manifest_payload`): a missing or empty manifest is an error.
pub open spec fn manifest_payload_verdict(packed: i64, memory_len: int) -> Result<
    (int, int),
    Seq<char>,
> {
    let ptr = (packed as int / 0x1_0000_0000) % 0x1_0000_0000;
    let len = packed as int % 0x1_0000_0000;
    if packed == 0 {
        Err("WASM plugin manifest payload missing"@)
    } else if len == 0 {
        Err("WASM manifest payload length is zero"@)
    } else {
        range_verdict(
            ptr,
            len,
            memory_len,
            "WASM manifest payload range overflow"@,
            "WASM manifest payload range out of memory bounds"@,
        )
    }
}

/// Checks the range of a manifest payload.
pub fn manifest_payload_range(packed: i64, memory_len: usize) -> (r: Result<(usize, usize), String>)
    ensures
        range_view(r) == manifest_payload_verdict(packed, memory_len as int),
{
    if packed == 0 {
        return Err(String::from_str("WASM plugin manifest payload missing"));
    }
    let (ptr, len) = unpack_payload(packed);
    if len == 0 {
        return Err(String::from_str("WASM manifest payload length is zero"));
    }
    checked_range(
        ptr,
        len,
        memory_len,
        "WASM manifest payload range overflow",
        "WASM manifest payload range out of memory bounds",
    )
}

/// Checks the range that an argument string is written to
/// (`write_memory`).
pub fn write_range(ptr: usize, len: usize, memory_len: usize) -> (r: Result<(usize, usize), String>)
    ensures
        range_view(r) == range_verdict(
            ptr as int,
            len as int,
            memory_len as int,
            "WASM write range overflow"@,
            "WASM write range out of memory bounds"@,
        ),
{
    checked_range(
        ptr,
        len,
        memory_len,
        "WASM write range overflow",
        "WASM write range out of memory bounds",
    )
}

/// The verdict on a range that the plugin names with two `i32`s: negative
/// values are refused with `negative_ptr` and `negative_len`.
pub open spec fn guest_verdict(
    ptr: i32,
    len: i32,
    memory_len: int,
    negative_ptr: Seq<char>,
    negative_len: Seq<char>,
    overflow: Seq<char>,
    out_of_bounds: Seq<char>,
) -> Result<(int, int), Seq<char>> {
    if ptr < 0 {
        Err(negative_ptr)
    } else if len < 0 {
        Err(negative_len)
    } else {
        range_verdict(ptr as int, len as int, memory_len, overflow, out_of_bounds)
    }
}

/// Checks the range of a command the plugin passes to `run_command_utf8`
/// (`read_guest_utf8`).
pub fn guest_read_range(ptr: i32, len: i32, memory_len: usize) -> (r: Result<(usize, usize), String>)
    ensures
        range_view(r) == guest_verdict(
            ptr,
            len,
            memory_len as int,
            "negative pointer"@,
            "negative length"@,
            "range overflow"@,
            "range out of bounds"@,
        ),
{
    if ptr < 0 {
        return Err(String::from_str("negative pointer"));
    }
    if len < 0 {
        return Err(String::from_str("negative length"));
    }
    checked_range(ptr as usize, len as usize, memory_len, "range overflow", "range out of bounds")
}

/// Checks the range of a log message the plugin passes to `log_utf8`
/// (`log_guest_utf8`).
pub fn guest_log_range(ptr: i32, len: i32, memory_len: usize) -> (r: Result<(usize, usize), String>)
    ensures
        range_view(r) == guest_verdict(
            ptr,
            len,
            memory_len as int,
            "negative log pointer"@,
            "negative log length"@,
            "guest log range overflow"@,
            "guest log range out of bounds"@,
        ),
{
    if ptr < 0 {
        return Err(String::from_str("negative log pointer"));
    }
    if len < 0 {
        return Err(String::from_str("negative log length"));
    }
    checked_range(
        ptr as usize,
        len as usize,
        memory_len,
        "guest log range overflow",
        "guest log range out of bounds",
    )
}

/// The length that crosses the ABI for a string argument
/// (`call_with_string_arg`); longer than `i32::MAX` bytes is refused.
pub fn input_len(len: usize) -> (r: Result<i32, String>)
    ensures
        match r {
            Ok(l) => l as int == len as int,
            Err(m) => len > i32::MAX && m@ == "input too large"@,
        },
{
    if len > 2147483647usize {
        return Err(String::from_str("input too large"));
    }
    Ok(len as i32)
}

/// How many bytes to allocate for a reply the host writes into the plugin
/// (`write_guest_utf8`): the payload's length, at least one byte, so that
/// an empty reply still gets a non-null slot.
pub fn guest_reply_alloc_len(payload_len: usize) -> (r: Result<i32, String>)
    ensures
        match r {
            Ok(l) => payload_len <= i32::MAX && l as int == if payload_len == 0 {
                1
            } else {
                payload_len as int
            },
            Err(m) => payload_len > i32::MAX && m@ == "payload too large"@,
        },
{
    if payload_len > 2147483647usize {
        return Err(String::from_str("payload too large"));
    }
    let len = payload_len as i32;
    if len == 0 {
        Ok(1)
    } else {
        Ok(len)
    }
}

/// Checks the slot the plugin allocated for a reply (`write_guest_utf8`).
pub fn guest_reply_range(ptr: i32, alloc_len: i32, memory_len: usize) -> (r: Result<
    (usize, usize),
    String,
>)
    requires
        alloc_len >= 1,
    ensures
        range_view(r) == if ptr < 0 {
            Err("negative pointer"@)
        } else {
            range_verdict(
                ptr as int,
                alloc_len as int,
                memory_len as int,
                "range overflow"@,
                "range out of bounds"@,
            )
        },
{
    if ptr < 0 {
        return Err(String::from_str("negative pointer"));
    }
    checked_range(
        ptr as usize,
        alloc_len as usize,
        memory_len,
        "range overflow",
        "range out of bounds",
    )
}

} // verus!
