//! The symbol model: linkage, value types, calling conventions and function
//! signatures, as plain data that contracts can speak about.

use vstd::prelude::*;

verus! {

/// Visibility and resolution policy of a symbol.
///
/// `Local` symbols are internal to the module, `Export` symbols are visible
/// to the external linker and callers, and `Import` symbols are defined
/// externally and resolved at link time.
#[derive(Clone, Copy, PartialEq, Eq, Structural, Debug)]
pub enum Linkage {
    Local,
    Import,
    Export,
}

impl Linkage {
    /// Whether a symbol with this linkage is resolved by an external
    /// provider at link time and therefore never defined locally.
    pub fn is_import(&self) -> (r: bool)
        ensures
            r == (*self is Import),
    {
        matches!(self, Linkage::Import)
    }
}

/// The machine-level type of one parameter or return value.
///
/// `F32` and `F64` name floating-point slots for signature purposes only;
/// this layer never computes with such values.  `Pointer` is the target's
/// pointer-sized integer; both supported modes target 64-bit machines.
#[derive(Clone, Copy, PartialEq, Eq, Structural, Debug)]
pub enum ValueType {
    I8,
    I16,
    I32,
    I64,
    F32,
    F64,
    Pointer,
}

/// The calling convention a function is declared with.
#[derive(Clone, Copy, PartialEq, Eq, Structural, Debug)]
pub enum CallingConvention {
    /// System V-style convention used on many platforms; the default for
    /// both supported modes.
    SystemV,
    /// Best performance, not ABI-stable.
    Fast,
    /// Smallest caller code size, not ABI-stable.
    Cold,
    /// Windows "fastcall" convention.
    WindowsFastcall,
    /// The tweaked aarch64 ABI used on Mac.
    AppleAarch64,
}

/// The mathematical content of a [`FunctionSignature`].
pub struct SignatureModel {
    pub params: Seq<ValueType>,
    pub results: Seq<ValueType>,
    pub call_conv: CallingConvention,
}

/// A function's signature: ordered parameter types, ordered return types and
/// the calling convention.
#[derive(Debug)]
pub struct FunctionSignature {
    pub params: Vec<ValueType>,
    pub results: Vec<ValueType>,
    pub call_conv: CallingConvention,
}

impl View for FunctionSignature {
    type V = SignatureModel;

    open spec fn view(&self) -> SignatureModel {
        SignatureModel { params: self.params@, results: self.results@, call_conv: self.call_conv }
    }
}

impl FunctionSignature {
    /// A signature with the default (System V) calling convention.
    pub fn new(params: Vec<ValueType>, results: Vec<ValueType>) -> (r: FunctionSignature)
        ensures
            r@ == (SignatureModel {
                params: params@,
                results: results@,
                call_conv: CallingConvention::SystemV,
            }),
    {
        FunctionSignature { params, results, call_conv: CallingConvention::SystemV }
    }

    /// A signature with an explicit calling convention.
    pub fn with_call_conv(
        params: Vec<ValueType>,
        results: Vec<ValueType>,
        call_conv: CallingConvention,
    ) -> (r: FunctionSignature)
        ensures
            r@ == (SignatureModel { params: params@, results: results@, call_conv }),
    {
        FunctionSignature { params, results, call_conv }
    }

    /// Whether two signatures agree in every part; declaration idempotency
    /// is judged by this test.
    pub fn matches_signature(&self, other: &FunctionSignature) -> (r: bool)
        ensures
            r == (self@ == other@),
    {
        let ok = self.call_conv == other.call_conv && eq_value_types(&self.params, &other.params)
            && eq_value_types(&self.results, &other.results);
        proof {
            if ok {
                assert(self@ =~= other@);
            }
        }
        ok
    }
}

impl Clone for FunctionSignature {
    /// An exact copy; the symbol table stores one per declared function.
    fn clone(&self) -> (r: FunctionSignature)
        ensures
            r@ == self@,
    {
        FunctionSignature {
            params: copy_value_types(&self.params),
            results: copy_value_types(&self.results),
            call_conv: self.call_conv,
        }
    }
}

/// An element-for-element copy of a list of value types.
fn copy_value_types(v: &Vec<ValueType>) -> (r: Vec<ValueType>)
    ensures
        r@ == v@,
{
    let mut r: Vec<ValueType> = Vec::new();
    let mut i: usize = 0;
    while i < v.len()
        invariant
            i <= v.len(),
            r@ == v@.subrange(0, i as int),
        decreases v.len() - i,
    {
        r.push(v[i]);
        i = i + 1;
        proof {
            assert(r@ =~= v@.subrange(0, i as int));
        }
    }
    proof {
        assert(v@.subrange(0, v@.len() as int) =~= v@);
    }
    r
}

/// Element-for-element equality of two lists of value types.
fn eq_value_types(a: &Vec<ValueType>, b: &Vec<ValueType>) -> (r: bool)
    ensures
        r == (a@ == b@),
{
    if a.len() != b.len() {
        return false;
    }
    let mut i: usize = 0;
    while i < a.len()
        invariant
            i <= a.len(),
            a.len() == b.len(),
            forall|k: int| 0 <= k < i ==> a@[k] == b@[k],
        decreases a.len() - i,
    {
        if a[i] != b[i] {
            return false;
        }
        i = i + 1;
    }
    proof {
        assert(a@ =~= b@);
    }
    true
}

} // verus!
