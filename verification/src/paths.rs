//! The filesystem layout under the manager's base directory:
//! `<home>/.mlvm/<runtime>/<version>` for each installed version,
//! `<home>/.mlvm/<runtime>/current` for the activation link, and
//! `<home>/.mlvm/<runtime>/temp_unpack` as transient scratch.

use vstd::prelude::*;
use vstd::string::StringExecFns;
use crate::{Runtime, runtime_name};

verus! {

/// The root directory owned by one runtime.
pub open spec fn root_of(home: Seq<char>, rt: Runtime) -> Seq<char> {
    home + "/.mlvm/"@ + runtime_name(rt)
}

/// The final, write-once directory of one installed version.
pub open spec fn install_path_of(home: Seq<char>, rt: Runtime, version: Seq<char>) -> Seq<
    char,
> {
    root_of(home, rt) + "/"@ + version
}

/// The transient extraction workspace of one install call.
pub open spec fn scratch_path_of(home: Seq<char>, rt: Runtime) -> Seq<char> {
    root_of(home, rt) + "/temp_unpack"@
}

/// The activation link slot.
pub open spec fn current_path_of(home: Seq<char>, rt: Runtime) -> Seq<char> {
    root_of(home, rt) + "/current"@
}

/// Root directory string for a runtime under the given home directory.
pub fn runtime_root(home: &str, rt: Runtime) -> (r: String)
    ensures
        r@ == root_of(home@, rt),
{
    let r = String::from_str(home).concat("/.mlvm/").concat(rt.dir_name());
    proof {
        assert(r@ =~= root_of(home@, rt));
    }
    r
}

/// Final install directory string for one version.
pub fn install_path(home: &str, rt: Runtime, version: &str) -> (r: String)
    ensures
        r@ == install_path_of(home@, rt, version@),
{
    let r = runtime_root(home, rt).concat("/").concat(version);
    proof {
        assert(r@ =~= install_path_of(home@, rt, version@));
    }
    r
}

/// Scratch directory string for a runtime.
pub fn scratch_path(home: &str, rt: Runtime) -> (r: String)
    ensures
        r@ == scratch_path_of(home@, rt),
{
    let r = runtime_root(home, rt).concat("/temp_unpack");
    proof {
        assert(r@ =~= scratch_path_of(home@, rt));
    }
    r
}

/// Activation link slot string for a runtime.
pub fn current_path(home: &str, rt: Runtime) -> (r: String)
    ensures
        r@ == current_path_of(home@, rt),
{
    let r = runtime_root(home, rt).concat("/current");
    proof {
        assert(r@ =~= current_path_of(home@, rt));
    }
    r
}

/// The location inside the scratch directory where the archive's declared
/// top-level folder is expected after extraction.
pub fn scratch_member_path(home: &str, rt: Runtime, top_folder: &str) -> (r: String)
    ensures
        r@ == scratch_path_of(home@, rt) + "/"@ + top_folder@,
{
    let r = scratch_path(home, rt).concat("/").concat(top_folder);
    proof {
        assert(r@ =~= scratch_path_of(home@, rt) + "/"@ + top_folder@);
    }
    r
}

} // verus!
