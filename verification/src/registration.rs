//! Registry entries for announcing and withdrawing an event source.
//!
//! An event source is announced by creating a subkey named after it under
//! the Application log's base key and pointing its `EventMessageFile` value
//! at the executable that carries the message resources; it is withdrawn by
//! deleting that subkey. The functions here compute those registry changes
//! exactly; performing them is the caller's part.

use vstd::prelude::*;
use vstd::string::StrSliceExecFns;
use vstd::string::StringExecFns;

use crate::errors::Error;
use crate::wide::lemma_wide_nul_free;
use crate::wide::wide_nul_of;
use crate::wide::wide_of;
use crate::wide::win_string;

verus! {

/// The registry key under which sources of the Application log are
/// announced.
pub const REG_BASEKEY: &'static str = r"SYSTEM\CurrentControlSet\Services\EventLog\Application";

/// A registry write announcing an event source: under the base key, create
/// the source's subkey and set its message-file value.
pub struct RegistrationRequest {
    /// The subkey to create under [`REG_BASEKEY`]: the source's name.
    pub subkey: String,
    /// The name of the value to set on that subkey.
    pub value_name: String,
    /// The value's data: the executable's path as a nul-terminated wide
    /// string, with no nul unit before the terminator.
    pub message_file: Vec<u16>,
}

/// A registry deletion withdrawing an event source: the source's subkey
/// under the base key, removed with everything below it.
pub struct DeregistrationRequest {
    /// The subkey to delete under [`REG_BASEKEY`]: the source's name.
    pub subkey: String,
    /// The deletion takes the whole subtree with it.
    pub recursive: bool,
}

/// The compute part of registering an event source: the exact registry
/// write for it, or `ExePathNotFound` when the executable's path cannot
/// become a registry string because a nul character stands in it.
pub fn register(name: &str, exe_path: &str) -> (r: Result<RegistrationRequest, Error>)
    ensures
        (r is Err) == exe_path@.contains('\0'),
        r matches Err(e) ==> e is ExePathNotFound,
        r matches Ok(req) ==> req.subkey@ == name@
            && req.value_name@ == "EventMessageFile"@
            && req.message_file@ == wide_nul_of(exe_path@)
            && (forall|j: int| 0 <= j < req.message_file@.len() - 1 ==> req.message_file@[j] != 0u16),
{
    let len = exe_path.unicode_len();
    let mut has_nul = false;
    let mut i: usize = 0;
    while i < len
        invariant
            i <= len,
            len == exe_path@.len(),
            has_nul <==> (exists|j: int| 0 <= j < i && exe_path@[j] == '\0'),
        decreases len - i,
    {
        if exe_path.get_char(i) == '\0' {
            has_nul = true;
        }
        i = i + 1;
    }
    if has_nul {
        proof {
            let j = choose|j: int| 0 <= j < len && exe_path@[j] == '\0';
            assert(exe_path@.contains('\0'));
        }
        return Err(Error::ExePathNotFound);
    }
    let message_file = win_string(exe_path);
    proof {
        assert(!exe_path@.contains('\0'));
        lemma_wide_nul_free(exe_path@);
        assert forall|j: int| 0 <= j < message_file@.len() - 1 implies message_file@[j] != 0u16 by {
            assert(message_file@[j] == wide_of(exe_path@)[j]);
            if message_file@[j] == 0u16 {
                assert(wide_of(exe_path@).contains(0u16));
            }
        }
    }
    Ok(RegistrationRequest {
        subkey: String::from_str(name),
        value_name: String::from_str("EventMessageFile"),
        message_file,
    })
}

/// The compute part of withdrawing an event source: the exact registry
/// deletion, the source's subkey removed recursively.
pub fn deregister(name: &str) -> (r: DeregistrationRequest)
    ensures
        r.subkey@ == name@,
        r.recursive,
{
    DeregistrationRequest { subkey: String::from_str(name), recursive: true }
}

} // verus!
