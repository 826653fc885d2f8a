use vstd::prelude::*;

use crate::module::{import_satisfied, load_spec, ImageModel};
use crate::registry::{find_function, names_unique, FunctionModel};
use crate::runtime::{after_reload, build_spec, reload_spec, resolve_spec, retry_spec, RuntimeModel};
use crate::types::{RuntimeError, SignatureModel};

verus! {

/// Registering a fresh name makes `lookup` of that name return exactly the new
/// descriptor, and leaves the result of `lookup` for every other name unchanged.
pub proof fn law_lookup_after_register(s: Seq<FunctionModel>, d: FunctionModel)
    requires
        find_function(s, d.name) is None,
    ensures
        find_function(s.push(d), d.name) == Some(d),
        forall|n: Seq<char>| n != d.name ==> #[trigger] find_function(s.push(d), n) == find_function(s, n),
{
    assert(s.push(d).last() == d);
    assert forall|n: Seq<char>| n != d.name implies #[trigger] find_function(s.push(d), n) == find_function(s, n) by {
        assert(s.push(d).drop_last() =~= s);
    }
}

/// Building against a registry that lacks a function the module imports fails
/// with `MissingDependency`, so no ready instance exists.
pub proof fn law_build_missing_dependency(
    registry: Seq<FunctionModel>,
    path: Seq<char>,
    img: ImageModel,
    j: int,
)
    requires
        names_unique(img.exports),
        0 <= j < img.imports.len(),
        find_function(registry, img.imports[j].name) is None,
    ensures
        build_spec(registry, path, Some(img)) == Err::<RuntimeModel, RuntimeError>(RuntimeError::MissingDependency),
{
    assert(!import_satisfied(registry, img.imports[j]));
}

/// On a ready instance, a function exported with the call site's signature
/// resolves to its address, and a name the module does not export gives
/// `FunctionNotFound`.
pub proof fn law_resolve_present_or_absent(m: RuntimeModel, name: Seq<char>, sig: SignatureModel)
    requires
        !m.terminated,
    ensures
        find_function(m.module.exports, name) is None ==> resolve_spec(m, name, sig) == Err::<u64, RuntimeError>(
            RuntimeError::FunctionNotFound,
        ),
        forall|f: FunctionModel|
            find_function(m.module.exports, name) == Some(f) && f.sig == sig ==> resolve_spec(m, name, sig)
                == Ok::<u64, RuntimeError>(f.address),
{
}

/// A function that only the new version of a module exports gives
/// `FunctionNotFound` before a successful reload and resolves after it.
pub proof fn law_reload_exposes_new_function(
    m: RuntimeModel,
    img: ImageModel,
    name: Seq<char>,
    f: FunctionModel,
)
    requires
        !m.terminated,
        find_function(m.module.exports, name) is None,
        load_spec(m.module.path, Some(img), m.registry) is Ok,
        find_function(img.exports, name) == Some(f),
    ensures
        resolve_spec(m, name, f.sig) == Err::<u64, RuntimeError>(RuntimeError::FunctionNotFound),
        reload_spec(m, Some(img)) is Ok,
        resolve_spec(reload_spec(m, Some(img))->Ok_0, name, f.sig) == Ok::<u64, RuntimeError>(f.address),
{
}

/// A failed reload leaves the instance as it was, so every resolution gives
/// the same outcome as before.
pub proof fn law_failed_reload_keeps_module(m: RuntimeModel, artifact: Option<ImageModel>)
    requires
        reload_spec(m, artifact) is Err,
    ensures
        after_reload(m, artifact) == m,
        forall|name: Seq<char>, sig: SignatureModel|
            #[trigger] resolve_spec(after_reload(m, artifact), name, sig) == resolve_spec(m, name, sig),
{
}

/// The state after the first `k` pending reloads have been attempted.
pub open spec fn state_after(m: RuntimeModel, pending: Seq<Option<ImageModel>>, k: nat) -> RuntimeModel
    decreases k,
{
    if k == 0 || pending.len() == 0 {
        m
    } else {
        state_after(after_reload(m, pending[0]), pending.drop_first(), (k - 1) as nat)
    }
}

/// When a function resolves only after `n` reload cycles, retrying with a
/// budget of at least `n` reaches that resolution, and a smaller budget ends
/// with the last observed `FunctionNotFound`.
pub proof fn law_retry_budget(
    m: RuntimeModel,
    name: Seq<char>,
    sig: SignatureModel,
    pending: Seq<Option<ImageModel>>,
    n: nat,
    budget: nat,
)
    requires
        n <= pending.len(),
        forall|k: nat| k < n ==> resolve_spec(#[trigger] state_after(m, pending, k), name, sig) == Err::<
            u64,
            RuntimeError,
        >(RuntimeError::FunctionNotFound),
        resolve_spec(state_after(m, pending, n), name, sig) is Ok,
    ensures
        budget >= n ==> retry_spec(m, name, sig, pending, budget).0 == resolve_spec(
            state_after(m, pending, n),
            name,
            sig,
        ),
        budget < n ==> retry_spec(m, name, sig, pending, budget).0 == Err::<u64, RuntimeError>(
            RuntimeError::FunctionNotFound,
        ),
    decreases n,
{
    if n > 0 {
        assert(state_after(m, pending, 0) == m);
        if budget > 0 {
            let m1 = after_reload(m, pending[0]);
            let rest = pending.drop_first();
            assert forall|k: nat| k < (n - 1) as nat implies resolve_spec(
                #[trigger] state_after(m1, rest, k),
                name,
                sig,
            ) == Err::<u64, RuntimeError>(RuntimeError::FunctionNotFound) by {
                assert(state_after(m, pending, k + 1) == state_after(m1, rest, k));
            }
            assert(state_after(m, pending, n) == state_after(m1, rest, (n - 1) as nat));
            law_retry_budget(m1, name, sig, rest, (n - 1) as nat, (budget - 1) as nat);
        }
    }
}

} // verus!
