use vstd::prelude::*;
use vstd::string::*;
use crate::tool::Tool;

verus! {

/// Whether the cached copy of a payload must be written: it is missing, or its
/// length differs from the payload's.
pub open spec fn needs_write_spec(cached_len: Option<u64>, payload_len: u64) -> bool {
    cached_len != Some(payload_len)
}

/// The length of the cached copy once provisioning has finished: a copy that
/// had to be written holds the whole payload.
pub open spec fn cached_after(cached_len: Option<u64>, payload_len: u64) -> Option<u64> {
    if needs_write_spec(cached_len, payload_len) {
        Some(payload_len)
    } else {
        cached_len
    }
}

/// The name of a tool's cached executable, inside the shared temporary
/// directory.
pub open spec fn cache_file_name_spec(tool: Tool) -> Seq<char> {
    "cmtools_"@ + tool.exe_name_spec()
}

/// Whether the cached copy must be written, given its length (`None` when it
/// is missing or cannot be inspected) and the payload's length.
pub fn needs_write(cached_len: Option<u64>, payload_len: u64) -> (r: bool)
    ensures
        r == needs_write_spec(cached_len, payload_len),
{
    match cached_len {
        Some(len) => len != payload_len,
        None => true,
    }
}

/// The file name of a tool's cached executable.
pub fn cache_file_name(tool: Tool) -> (r: String)
    ensures
        r@ == cache_file_name_spec(tool),
{
    let mut r = String::from_str("cmtools_");
    r.append(tool.exe_name());
    r
}

/// Provisioning twice in a row with the same payload writes only the first
/// time: after the first, the cached copy has the payload's length.
pub proof fn lemma_provision_idempotent(cached_len: Option<u64>, payload_len: u64)
    ensures
        cached_after(cached_len, payload_len) == Some(payload_len),
        !needs_write_spec(cached_after(cached_len, payload_len), payload_len),
        cached_after(cached_after(cached_len, payload_len), payload_len) == cached_after(
            cached_len,
            payload_len,
        ),
{
}

/// A cached copy of the wrong length is always rewritten in full.
pub proof fn lemma_wrong_length_rewritten(cached_len: u64, payload_len: u64)
    requires
        cached_len != payload_len,
    ensures
        needs_write_spec(Some(cached_len), payload_len),
        cached_after(Some(cached_len), payload_len) == Some(payload_len),
{
}

} // verus!
