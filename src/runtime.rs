use vstd::prelude::*;

use crate::module::{artifact_view, load, load_spec, HandleModel, ImageModel, ModuleHandle, ModuleImage};
use crate::registry::{find_function, names_unique, FunctionModel, FunctionRegistry};
use crate::types::{type_of, RuntimeError, Signature, SignatureModel, TypeTag, Value};

verus! {

/// The mathematical form of a runtime instance.
pub struct RuntimeModel {
    pub registry: Seq<FunctionModel>,
    pub module: HandleModel,
    pub terminated: bool,
}

/// The observable lifecycle state of a runtime instance.
#[derive(Clone, Copy, Debug, PartialEq, Eq, Structural)]
pub enum RuntimeState {
    Ready,
    Terminated,
}

/// A runtime instance: one live module and the registry it was resolved against.
#[derive(Debug)]
pub struct RuntimeInstance {
    registry: FunctionRegistry,
    module: ModuleHandle,
    terminated: bool,
}

impl View for RuntimeInstance {
    type V = RuntimeModel;

    closed spec fn view(&self) -> RuntimeModel {
        RuntimeModel { registry: self.registry@, module: self.module@, terminated: self.terminated }
    }
}

/// The outcome of building a runtime instance: a load whose imports cannot be
/// satisfied is reported as a missing dependency.
pub open spec fn build_spec(
    registry: Seq<FunctionModel>,
    path: Seq<char>,
    artifact: Option<ImageModel>,
) -> Result<RuntimeModel, RuntimeError> {
    match load_spec(path, artifact, registry) {
        Ok(h) => Ok(RuntimeModel { registry, module: h, terminated: false }),
        Err(RuntimeError::SymbolResolutionError) => Err(RuntimeError::MissingDependency),
        Err(e) => Err(e),
    }
}

/// Resolution of `name` among the entries `table` against the call site's signature.
pub open spec fn resolve_in(
    terminated: bool,
    table: Seq<FunctionModel>,
    name: Seq<char>,
    sig: SignatureModel,
) -> Result<u64, RuntimeError> {
    if terminated {
        Err(RuntimeError::RuntimeUnavailable)
    } else {
        match find_function(table, name) {
            None => Err(RuntimeError::FunctionNotFound),
            Some(f) => if f.sig == sig {
                Ok(f.address)
            } else {
                Err(RuntimeError::TypeMismatch)
            },
        }
    }
}

/// Resolution of a script function in the active module.
pub open spec fn resolve_spec(m: RuntimeModel, name: Seq<char>, sig: SignatureModel) -> Result<u64, RuntimeError> {
    resolve_in(m.terminated, m.module.exports, name, sig)
}

/// Resolution of a native function, called from script code, in the registry.
pub open spec fn resolve_native_spec(m: RuntimeModel, name: Seq<char>, sig: SignatureModel) -> Result<u64, RuntimeError> {
    resolve_in(m.terminated, m.registry, name, sig)
}

/// The outcome of reloading the module from a new artifact.
pub open spec fn reload_spec(m: RuntimeModel, artifact: Option<ImageModel>) -> Result<RuntimeModel, RuntimeError> {
    if m.terminated {
        Err(RuntimeError::RuntimeUnavailable)
    } else {
        match load_spec(m.module.path, artifact, m.registry) {
            Ok(h) => Ok(RuntimeModel { module: h, ..m }),
            Err(e) => Err(e),
        }
    }
}

/// The state after a reload attempt: the new module on success, the old state otherwise.
pub open spec fn after_reload(m: RuntimeModel, artifact: Option<ImageModel>) -> RuntimeModel {
    match reload_spec(m, artifact) {
        Ok(m2) => m2,
        Err(_) => m,
    }
}

/// The views of a list of pending artifacts.
pub open spec fn pending_view(pending: Seq<Option<ModuleImage>>) -> Seq<Option<ImageModel>> {
    pending.map_values(|a: Option<ModuleImage>| artifact_view(a))
}

/// Outcome and final state of resolving `name`, reloading from the next pending
/// artifact after each `FunctionNotFound`, at most `budget` times.
pub open spec fn retry_spec(
    m: RuntimeModel,
    name: Seq<char>,
    sig: SignatureModel,
    pending: Seq<Option<ImageModel>>,
    budget: nat,
) -> (Result<u64, RuntimeError>, RuntimeModel)
    decreases pending.len(),
{
    let r = resolve_spec(m, name, sig);
    if r == Err::<u64, RuntimeError>(RuntimeError::FunctionNotFound) && budget > 0 && pending.len() > 0 {
        retry_spec(after_reload(m, pending[0]), name, sig, pending.drop_first(), (budget - 1) as nat)
    } else {
        (r, m)
    }
}

/// The signature of a call with these argument values and this expected return type.
pub open spec fn call_signature_spec(args: Seq<Value>, ret: TypeTag) -> SignatureModel {
    SignatureModel { args: args.map_values(|v: Value| type_of(v)), ret }
}

/// The signature of a call with these argument values and this expected return type.
pub fn call_signature(args: &Vec<Value>, ret: TypeTag) -> (r: Signature)
    ensures
        r@ == call_signature_spec(args@, ret),
{
    let mut tags: Vec<TypeTag> = Vec::new();
    let mut i: usize = 0;
    while i < args.len()
        invariant
            i <= args.len(),
            tags@ =~= args@.take(i as int).map_values(|v: Value| type_of(v)),
        decreases args.len() - i,
    {
        tags.push(args[i].type_tag());
        i = i + 1;
        assert(tags@ =~= args@.take(i as int).map_values(|v: Value| type_of(v)));
    }
    assert(args@.take(args.len() as int) =~= args@);
    Signature::new(tags, ret)
}

/// Accepts the raw value that a call returned when it has the expected type.
pub fn marshal_return(expected: TypeTag, returned: Value) -> (r: Result<Value, RuntimeError>)
    ensures
        type_of(returned) == expected ==> r == Ok::<Value, RuntimeError>(returned),
        type_of(returned) != expected ==> r == Err::<Value, RuntimeError>(RuntimeError::TypeMismatch),
{
    if returned.type_tag() == expected {
        Ok(returned)
    } else {
        Err(RuntimeError::TypeMismatch)
    }
}

/// The outcome of a resolution, given what the lookup of the name found.
fn resolve_entry(
    terminated: bool,
    found: Option<(&Signature, u64)>,
    sig: &Signature,
) -> (r: Result<u64, RuntimeError>)
    ensures
        terminated ==> r == Err::<u64, RuntimeError>(RuntimeError::RuntimeUnavailable),
        !terminated && found is None ==> r == Err::<u64, RuntimeError>(RuntimeError::FunctionNotFound),
        !terminated && found is Some ==> r == (if found->Some_0.0@ == sig@ {
            Ok::<u64, RuntimeError>(found->Some_0.1)
        } else {
            Err::<u64, RuntimeError>(RuntimeError::TypeMismatch)
        }),
{
    if terminated {
        return Err(RuntimeError::RuntimeUnavailable);
    }
    match found {
        None => Err(RuntimeError::FunctionNotFound),
        Some((s, a)) => if s.same_as(sig) {
            Ok(a)
        } else {
            Err(RuntimeError::TypeMismatch)
        },
    }
}

impl RuntimeInstance {
    /// The registry holds each name once.
    pub open spec fn wf(&self) -> bool {
        names_unique(self@.registry)
    }

    /// Builds a runtime instance: loads the module at `path` from its artifact
    /// (`None` when no file was there) and checks every import against the registry.
    pub fn build(registry: FunctionRegistry, path: String, artifact: Option<ModuleImage>) -> (r: Result<
        RuntimeInstance,
        RuntimeError,
    >)
        requires
            registry.wf(),
        ensures
            match build_spec(registry@, path@, artifact_view(artifact)) {
                Ok(m) => r is Ok && r->Ok_0@ == m && r->Ok_0.wf(),
                Err(e) => r is Err && r->Err_0 == e,
            },
    {
        match load(path, artifact, &registry) {
            Ok(module) => Ok(RuntimeInstance { registry, module, terminated: false }),
            Err(RuntimeError::SymbolResolutionError) => Err(RuntimeError::MissingDependency),
            Err(e) => Err(e),
        }
    }

    /// The lifecycle state.
    pub fn state(&self) -> (r: RuntimeState)
        ensures
            r == (if self@.terminated {
                RuntimeState::Terminated
            } else {
                RuntimeState::Ready
            }),
    {
        if self.terminated {
            RuntimeState::Terminated
        } else {
            RuntimeState::Ready
        }
    }

    /// The registry of native functions.
    pub fn registry(&self) -> (r: &FunctionRegistry)
        ensures
            r@ == self@.registry,
    {
        &self.registry
    }

    /// The active module.
    pub fn module(&self) -> (r: &ModuleHandle)
        ensures
            r@ == self@.module,
    {
        &self.module
    }

    /// Resolves the script function `name` in the active module against the
    /// call site's signature, giving its address.
    pub fn resolve(&self, name: &String, sig: &Signature) -> (r: Result<u64, RuntimeError>)
        ensures
            r == resolve_spec(self@, name@, sig@),
    {
        let found = match self.module.find_export(name) {
            Some(e) => Some((&e.signature, e.address)),
            None => None,
        };
        resolve_entry(self.terminated, found, sig)
    }

    /// Resolves a call of `name` with these argument values and this expected
    /// return type, giving the address to call.
    pub fn invoke(&self, name: &String, args: &Vec<Value>, ret: TypeTag) -> (r: Result<u64, RuntimeError>)
        ensures
            r == resolve_spec(self@, name@, call_signature_spec(args@, ret)),
    {
        let sig = call_signature(args, ret);
        self.resolve(name, &sig)
    }

    /// Resolves the native function `name`, called from script code, in the registry.
    pub fn resolve_native(&self, name: &String, sig: &Signature) -> (r: Result<u64, RuntimeError>)
        ensures
            r == resolve_native_spec(self@, name@, sig@),
    {
        let found = match self.registry.lookup(name) {
            Some(d) => Some((&d.signature, d.entry_point)),
            None => None,
        };
        resolve_entry(self.terminated, found, sig)
    }

    /// Replaces the active module by one loaded from a new artifact of the same
    /// path; on failure the active module stays as it was.
    pub fn reload(&mut self, artifact: Option<ModuleImage>) -> (r: Result<(), RuntimeError>)
        requires
            old(self).wf(),
        ensures
            final(self).wf(),
            match reload_spec(old(self)@, artifact_view(artifact)) {
                Ok(m) => r is Ok && final(self)@ == m,
                Err(e) => r == Err::<(), RuntimeError>(e) && final(self)@ == old(self)@,
            },
    {
        if self.terminated {
            return Err(RuntimeError::RuntimeUnavailable);
        }
        let path = self.module.path().clone();
        match load(path, artifact, &self.registry) {
            Ok(module) => {
                self.module = module;
                Ok(())
            },
            Err(e) => Err(e),
        }
    }

    /// Ends the instance's life: every later invocation or reload fails with
    /// `RuntimeUnavailable`.
    pub fn terminate(&mut self)
        ensures
            final(self)@ == (RuntimeModel { terminated: true, ..old(self)@ }),
    {
        self.terminated = true;
    }

    /// Resolves `name`; after each `FunctionNotFound` reloads from the next
    /// pending artifact and tries again, at most `budget` times, returning the
    /// last outcome.
    pub fn invoke_or_retry(
        &mut self,
        name: &String,
        sig: &Signature,
        pending: Vec<Option<ModuleImage>>,
        budget: usize,
    ) -> (r: Result<u64, RuntimeError>)
        requires
            old(self).wf(),
        ensures
            final(self).wf(),
            (r, final(self)@) == retry_spec(old(self)@, name@, sig@, pending_view(pending@), budget as nat),
    {
        let ghost orig = pending_view(pending@);
        let mut queue = pending;
        let mut left: usize = budget;
        loop
            invariant
                self.wf(),
                orig == pending_view(pending@),
                retry_spec(self@, name@, sig@, pending_view(queue@), left as nat) == retry_spec(
                    old(self)@,
                    name@,
                    sig@,
                    orig,
                    budget as nat,
                ),
            decreases queue.len(),
        {
            let r = self.resolve(name, sig);
            match r {
                Err(RuntimeError::FunctionNotFound) => {
                    if left == 0 || queue.len() == 0 {
                        return r;
                    }
                    let ghost before = queue@;
                    let art = queue.remove(0);
                    assert(pending_view(queue@) =~= pending_view(before).drop_first());
                    let _ = self.reload(art);
                    left = left - 1;
                },
                _ => {
                    return r;
                },
            }
        }
    }
}

} // verus!
