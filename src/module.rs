use vstd::prelude::*;

use crate::registry::{find_function, names_unique, FunctionModel, FunctionRegistry};
use crate::types::{RuntimeError, Signature, SignatureModel};

verus! {

/// A function that a module exports, with its signature and address.
#[derive(Clone, Debug)]
pub struct ExportEntry {
    pub name: String,
    pub signature: Signature,
    pub address: u64,
}

impl View for ExportEntry {
    type V = FunctionModel;

    open spec fn view(&self) -> FunctionModel {
        FunctionModel { name: self.name@, sig: self.signature@, address: self.address }
    }
}

/// The mathematical form of an import: a native function that a module needs.
pub struct ImportModel {
    pub name: Seq<char>,
    pub sig: SignatureModel,
}

/// A native function that a module requires from the host.
#[derive(Clone, Debug)]
pub struct ImportEntry {
    pub name: String,
    pub signature: Signature,
}

impl View for ImportEntry {
    type V = ImportModel;

    open spec fn view(&self) -> ImportModel {
        ImportModel { name: self.name@, sig: self.signature@ }
    }
}

/// The mathematical form of a module artifact's symbol tables.
pub struct ImageModel {
    pub exports: Seq<FunctionModel>,
    pub imports: Seq<ImportModel>,
}

/// The symbol tables read from a compiled module artifact.
#[derive(Clone, Debug)]
pub struct ModuleImage {
    pub exports: Vec<ExportEntry>,
    pub imports: Vec<ImportEntry>,
}

impl View for ModuleImage {
    type V = ImageModel;

    open spec fn view(&self) -> ImageModel {
        ImageModel {
            exports: self.exports@.map_values(|e: ExportEntry| e@),
            imports: self.imports@.map_values(|i: ImportEntry| i@),
        }
    }
}

/// The mathematical form of a loaded module.
pub struct HandleModel {
    pub path: Seq<char>,
    pub exports: Seq<FunctionModel>,
    /// Entry point bound to each import, in import order.
    pub bindings: Seq<u64>,
}

/// A loaded module: its path, its export table and its resolved imports.
#[derive(Debug)]
pub struct ModuleHandle {
    path: String,
    exports: Vec<ExportEntry>,
    bindings: Vec<u64>,
}

impl View for ModuleHandle {
    type V = HandleModel;

    closed spec fn view(&self) -> HandleModel {
        HandleModel {
            path: self.path@,
            exports: self.exports@.map_values(|e: ExportEntry| e@),
            bindings: self.bindings@,
        }
    }
}

/// The view of an artifact that may be absent.
pub open spec fn artifact_view(artifact: Option<ModuleImage>) -> Option<ImageModel> {
    match artifact {
        Some(img) => Some(img@),
        None => None,
    }
}

/// The registry holds a function of the import's name and signature.
pub open spec fn import_satisfied(registry: Seq<FunctionModel>, imp: ImportModel) -> bool {
    match find_function(registry, imp.name) {
        Some(d) => d.sig == imp.sig,
        None => false,
    }
}

/// Every import of the list is satisfied by the registry.
pub open spec fn imports_satisfied(registry: Seq<FunctionModel>, imports: Seq<ImportModel>) -> bool {
    forall|j: int| 0 <= j < imports.len() ==> import_satisfied(registry, #[trigger] imports[j])
}

/// The outcome of loading the artifact found at `path` against a registry.
pub open spec fn load_spec(
    path: Seq<char>,
    artifact: Option<ImageModel>,
    registry: Seq<FunctionModel>,
) -> Result<HandleModel, RuntimeError> {
    match artifact {
        None => Err(RuntimeError::FileNotFound),
        Some(img) => if !names_unique(img.exports) {
            Err(RuntimeError::InvalidFormat)
        } else if !imports_satisfied(registry, img.imports) {
            Err(RuntimeError::SymbolResolutionError)
        } else {
            Ok(
                HandleModel {
                    path,
                    exports: img.exports,
                    bindings: Seq::new(
                        img.imports.len(),
                        |j: int| find_function(registry, img.imports[j].name)->Some_0.address,
                    ),
                },
            )
        },
    }
}

/// Whether no two exports share a name.
fn exports_unique(exports: &Vec<ExportEntry>) -> (r: bool)
    ensures
        r == names_unique(exports@.map_values(|e: ExportEntry| e@)),
{
    let ghost s = exports@.map_values(|e: ExportEntry| e@);
    let mut j: usize = 1;
    while j < exports.len()
        invariant
            s == exports@.map_values(|e: ExportEntry| e@),
            1 <= j || exports.len() == 0,
            j <= exports.len() || exports.len() == 0,
            forall|a: int, b: int| 0 <= a < b < j && b < s.len() ==> s[a].name != s[b].name,
        decreases exports.len() - j,
    {
        let mut i: usize = 0;
        while i < j
            invariant
                s == exports@.map_values(|e: ExportEntry| e@),
                1 <= j < exports.len(),
                i <= j,
                forall|a: int, b: int| 0 <= a < b < j ==> s[a].name != s[b].name,
                forall|a: int| 0 <= a < i ==> s[a].name != s[j as int].name,
            decreases j - i,
        {
            if exports[i].name == exports[j].name {
                assert(s[i as int].name == s[j as int].name);
                return false;
            }
            i = i + 1;
        }
        j = j + 1;
    }
    true
}

/// Loads a module from its artifact, as read from `path` (`None` when no file
/// was there), resolving each import against the registry.
pub fn load(path: String, artifact: Option<ModuleImage>, registry: &FunctionRegistry) -> (r: Result<
    ModuleHandle,
    RuntimeError,
>)
    ensures
        match load_spec(path@, artifact_view(artifact), registry@) {
            Ok(h) => r is Ok && r->Ok_0@ == h,
            Err(e) => r == Err::<ModuleHandle, RuntimeError>(e),
        },
{
    let img = match artifact {
        None => {
            return Err(RuntimeError::FileNotFound);
        },
        Some(img) => img,
    };
    let ghost im = img@;
    if !exports_unique(&img.exports) {
        return Err(RuntimeError::InvalidFormat);
    }
    assert(names_unique(im.exports));
    assert(artifact_view(artifact) == Some(im));
    let ghost av = artifact_view(artifact);
    let mut bindings: Vec<u64> = Vec::new();
    let mut j: usize = 0;
    while j < img.imports.len()
        invariant
            im == img@,
            av == Some(im),
            av == artifact_view(artifact),
            names_unique(im.exports),
            j <= img.imports.len(),
            forall|k: int| 0 <= k < j ==> import_satisfied(registry@, #[trigger] im.imports[k]),
            bindings@ =~= Seq::new(
                j as nat,
                |k: int| find_function(registry@, im.imports[k].name)->Some_0.address,
            ),
        decreases img.imports.len() - j,
    {
        assert(im.imports[j as int] == img.imports@[j as int]@);
        match registry.lookup(&img.imports[j].name) {
            Some(d) => {
                if !d.signature.same_as(&img.imports[j].signature) {
                    assert(!import_satisfied(registry@, im.imports[j as int]));
                    assert(!imports_satisfied(registry@, im.imports));
                    return Err(RuntimeError::SymbolResolutionError);
                }
                bindings.push(d.entry_point);
            },
            None => {
                assert(!import_satisfied(registry@, im.imports[j as int]));
                assert(!imports_satisfied(registry@, im.imports));
                return Err(RuntimeError::SymbolResolutionError);
            },
        }
        j = j + 1;
    }
    let h = ModuleHandle { path, exports: img.exports, bindings };
    assert(h@.bindings =~= Seq::new(
        im.imports.len(),
        |k: int| find_function(registry@, im.imports[k].name)->Some_0.address,
    ));
    Ok(h)
}

impl ModuleHandle {
    /// The path the module was loaded from.
    pub fn path(&self) -> (r: &String)
        ensures
            r@ == self@.path,
    {
        &self.path
    }

    /// The export named `name`, if any.
    pub fn find_export(&self, name: &String) -> (r: Option<&ExportEntry>)
        ensures
            match find_function(self@.exports, name@) {
                Some(e) => r is Some && r->Some_0@ == e,
                None => r is None,
            },
    {
        let ghost s = self@.exports;
        let mut i: usize = self.exports.len();
        assert(s.take(i as int) =~= s);
        while i > 0
            invariant
                s == self@.exports,
                i <= self.exports.len(),
                find_function(s, name@) == find_function(s.take(i as int), name@),
            decreases i,
        {
            let ghost pre = s.take(i as int);
            assert(pre.drop_last() =~= s.take(i - 1));
            assert(pre.last() == self.exports@[i - 1]@);
            if self.exports[i - 1].name == *name {
                return Some(&self.exports[i - 1]);
            }
            i = i - 1;
        }
        assert(s.take(0) =~= Seq::<FunctionModel>::empty());
        None
    }

    /// The entry point bound to the import at `index`.
    pub fn binding(&self, index: usize) -> (r: Option<u64>)
        ensures
            index < self@.bindings.len() ==> r == Some(self@.bindings[index as int]),
            index >= self@.bindings.len() ==> r is None,
    {
        if index < self.bindings.len() {
            Some(self.bindings[index])
        } else {
            None
        }
    }
}

} // verus!
