use vstd::prelude::*;

verus! {

// Every persisted record must fit a fixed maximum serialized size, so each
// string and list carries an explicit maximum. Lengths of strings are
// counted in characters.

/// Maximum length of a service name.
pub const MAX_SERVICE_NAME_LEN: usize = 64;
/// Maximum length of a service endpoint locator.
pub const MAX_ENDPOINT_URL_LEN: usize = 256;
/// Maximum length of a task description.
pub const MAX_TASK_DESCRIPTION_LEN: usize = 256;
/// Maximum number of capability tags on a service or a task.
pub const MAX_CAPABILITIES: usize = 16;
/// Maximum length of one capability tag.
pub const MAX_CAPABILITY_LEN: usize = 32;
/// Maximum length of a per-unit pricing unit description.
pub const MAX_UNIT_TYPE_LEN: usize = 32;

/// A service name is acceptable when it is non-empty and within the bound.
pub open spec fn service_name_wf(name: Seq<char>) -> bool {
    0 < name.len() <= MAX_SERVICE_NAME_LEN
}

/// A capability list is acceptable when its count and each tag's length are
/// within the bounds.
pub open spec fn capabilities_wf(caps: Seq<String>) -> bool {
    &&& caps.len() <= MAX_CAPABILITIES
    &&& forall|i: int| 0 <= i < caps.len() ==> (#[trigger] caps[i])@.len() <= MAX_CAPABILITY_LEN
}

/// Decides `service_name_wf` on a concrete name.
pub fn check_service_name(name: &String) -> (ok: bool)
    ensures
        ok == service_name_wf(name@),
{
    let len = name.as_str().unicode_len();
    0 < len && len <= MAX_SERVICE_NAME_LEN
}

/// Decides `capabilities_wf` on a concrete capability list.
pub fn check_capabilities(caps: &Vec<String>) -> (ok: bool)
    ensures
        ok == capabilities_wf(caps@),
{
    if caps.len() > MAX_CAPABILITIES {
        return false;
    }
    let mut i: usize = 0;
    while i < caps.len()
        invariant
            i <= caps@.len(),
            caps@.len() <= MAX_CAPABILITIES,
            forall|k: int| 0 <= k < i ==> (#[trigger] caps@[k])@.len() <= MAX_CAPABILITY_LEN,
        decreases caps@.len() - i,
    {
        if caps[i].as_str().unicode_len() > MAX_CAPABILITY_LEN {
            return false;
        }
        i = i + 1;
    }
    true
}

} // verus!
