use vstd::prelude::*;

verus! {

/// The type of an argument or of a return value at the invocation boundary.
#[derive(Clone, Copy, Debug, PartialEq, Eq, Structural)]
pub enum TypeTag {
    Unit,
    Bool,
    I8,
    I16,
    I32,
    I64,
    U8,
    U16,
    U32,
    U64,
}

/// A value that crosses the invocation boundary.
#[derive(Clone, Copy, Debug, PartialEq, Eq, Structural)]
pub enum Value {
    Unit,
    Bool(bool),
    I8(i8),
    I16(i16),
    I32(i32),
    I64(i64),
    U8(u8),
    U16(u16),
    U32(u32),
    U64(u64),
}

/// Every error that the runtime can report.
#[derive(Clone, Copy, Debug, PartialEq, Eq, Structural)]
pub enum RuntimeError {
    /// A native function of that name is already registered.
    DuplicateName,
    /// The module imports a native function that the registry cannot satisfy
    /// (reported while building a runtime instance).
    MissingDependency,
    /// No module artifact exists at the given path.
    FileNotFound,
    /// The artifact is not a valid loadable module.
    InvalidFormat,
    /// The module imports a native function that the registry cannot satisfy
    /// (reported while loading or reloading).
    SymbolResolutionError,
    /// The active module exports no function of that name; retryable.
    FunctionNotFound,
    /// The call site's types disagree with the recorded signature.
    TypeMismatch,
    /// The runtime instance has been terminated.
    RuntimeUnavailable,
}

/// The type tag of a value.
pub open spec fn type_of(v: Value) -> TypeTag {
    match v {
        Value::Unit => TypeTag::Unit,
        Value::Bool(_) => TypeTag::Bool,
        Value::I8(_) => TypeTag::I8,
        Value::I16(_) => TypeTag::I16,
        Value::I32(_) => TypeTag::I32,
        Value::I64(_) => TypeTag::I64,
        Value::U8(_) => TypeTag::U8,
        Value::U16(_) => TypeTag::U16,
        Value::U32(_) => TypeTag::U32,
        Value::U64(_) => TypeTag::U64,
    }
}

impl Value {
    /// The type tag of this value.
    pub fn type_tag(&self) -> (r: TypeTag)
        ensures
            r == type_of(*self),
    {
        match self {
            Value::Unit => TypeTag::Unit,
            Value::Bool(_) => TypeTag::Bool,
            Value::I8(_) => TypeTag::I8,
            Value::I16(_) => TypeTag::I16,
            Value::I32(_) => TypeTag::I32,
            Value::I64(_) => TypeTag::I64,
            Value::U8(_) => TypeTag::U8,
            Value::U16(_) => TypeTag::U16,
            Value::U32(_) => TypeTag::U32,
            Value::U64(_) => TypeTag::U64,
        }
    }
}

/// The mathematical form of a signature.
pub struct SignatureModel {
    pub args: Seq<TypeTag>,
    pub ret: TypeTag,
}

/// An ordered list of argument types and a return type.
#[derive(Clone, Debug)]
pub struct Signature {
    pub args: Vec<TypeTag>,
    pub ret: TypeTag,
}

impl View for Signature {
    type V = SignatureModel;

    open spec fn view(&self) -> SignatureModel {
        SignatureModel { args: self.args@, ret: self.ret }
    }
}

impl Signature {
    /// A signature with the given argument and return types.
    pub fn new(args: Vec<TypeTag>, ret: TypeTag) -> (r: Signature)
        ensures
            r@ == (SignatureModel { args: args@, ret }),
    {
        Signature { args, ret }
    }

    /// Whether two signatures agree on every argument type and on the return type.
    pub fn same_as(&self, other: &Signature) -> (r: bool)
        ensures
            r == (self@ == other@),
    {
        if self.ret != other.ret || self.args.len() != other.args.len() {
            return false;
        }
        let mut i: usize = 0;
        while i < self.args.len()
            invariant
                self.args.len() == other.args.len(),
                i <= self.args.len(),
                forall|j: int| 0 <= j < i ==> self.args@[j] == other.args@[j],
            decreases self.args.len() - i,
        {
            if self.args[i] != other.args[i] {
                return false;
            }
            i = i + 1;
        }
        assert(self.args@ =~= other.args@);
        true
    }

    /// A copy of this signature.
    pub fn duplicate(&self) -> (r: Signature)
        ensures
            r@ == self@,
    {
        let mut args: Vec<TypeTag> = Vec::new();
        let mut i: usize = 0;
        while i < self.args.len()
            invariant
                i <= self.args.len(),
                args@ == self.args@.take(i as int),
            decreases self.args.len() - i,
        {
            args.push(self.args[i]);
            i = i + 1;
            assert(args@ =~= self.args@.take(i as int));
        }
        assert(self.args@.take(self.args.len() as int) =~= self.args@);
        Signature { args, ret: self.ret }
    }
}

} // verus!
