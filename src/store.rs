//! Rules of the daemon's state store over its workspace and agent-session
//! registries. Each registry is locked on its own by the caller, and no
//! rule here needs two of them at once.
use vstd::prelude::*;

use crate::registry::Registry;

verus! {

/// The error for a request naming a workspace the daemon does not know.
pub open spec fn unknown_workspace_msg() -> Seq<char> {
    "Unknown workspace"@
}

/// The directory of a workspace, from the registry of workspace paths.
pub fn workspace_path(workspaces: &Registry<String>, workspace_id: &String) -> (r: Result<String, String>)
    requires
        workspaces.wf(),
    ensures
        match r {
            Ok(p) => workspaces@.contains_key(workspace_id@) && p@ == workspaces@[workspace_id@]@,
            Err(e) => !workspaces@.contains_key(workspace_id@) && e@ == unknown_workspace_msg(),
        },
{
    match workspaces.get(workspace_id) {
        Some(p) => Ok(p.clone()),
        None => Err("Unknown workspace".to_owned()),
    }
}

/// Whether connecting a workspace has to spawn an agent session: only when
/// none is live for it, so connecting twice spawns once.
pub fn connect_needs_spawn<A>(sessions: &Registry<A>, workspace_id: &String) -> (r: bool)
    requires
        sessions.wf(),
    ensures
        r == !sessions@.contains_key(workspace_id@),
{
    !sessions.contains_key(workspace_id)
}

/// Removes an entry whatever became of the cleanup that went with it, and
/// hands back the cleanup's outcome: the registry stays consistent even
/// when cleanup fails.
pub fn detach<V>(registry: &mut Registry<V>, key: &String, cleanup: Result<(), String>) -> (r: Result<(), String>)
    requires
        old(registry).wf(),
    ensures
        final(registry).wf(),
        final(registry)@ == old(registry)@.remove(key@),
        r == cleanup,
{
    let _ = registry.remove(key);
    cleanup
}

} // verus!
