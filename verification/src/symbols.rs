//! The verified symbol table: the set of function and data symbols a module
//! has declared, which of them are defined, and whether the module has been
//! finalized.
//!
//! The table is the mathematical heart of the emission layer.  Every
//! declaration and definition a [`crate::generator::Generator`] accepts is
//! recorded here, and the layer's duplication, redefinition and
//! finalization rules are stated and proved over [`TableModel`], the table's
//! ghost view.

use vstd::assert_by_contradiction;
use vstd::prelude::*;

use crate::types::{FunctionSignature, Linkage, SignatureModel};

verus! {

/// Whether `a` is a valid data alignment: nonzero and a power of two.
/// The bit test `a & (a - 1) == 0` holds of a positive `a` exactly when a
/// single bit is set.
pub open spec fn is_valid_alignment(a: u64) -> bool {
    a > 0 && a & ((a - 1) as u64) == 0
}

/// Whether a data definition request is acceptable: nonzero size and a
/// valid alignment.  Zero-sized or misaligned requests earn
/// [`crate::error::AssemblerError::InvalidDataLayout`].
pub open spec fn valid_data_layout(size: nat, align: u64) -> bool {
    size > 0 && is_valid_alignment(align)
}

/// Ghost record of one declared function.
pub struct FuncModel {
    pub name: Seq<char>,
    pub linkage: Linkage,
    pub sig: SignatureModel,
    pub defined: bool,
    /// The id under which the code-generation backend knows this symbol.
    pub backend_id: u32,
}

/// Ghost record of a data object's defined contents.
pub enum DataInitModel {
    /// Explicit initial bytes.
    Bytes { bytes: Seq<u8>, align: u64 },
    /// Zero-initialized storage of the given size.
    Zeroed { size: nat, align: u64 },
}

/// Ghost record of one declared data object.
pub struct DataModel {
    pub name: Seq<char>,
    pub linkage: Linkage,
    pub writable: bool,
    pub thread_local: bool,
    /// `Some` exactly when the object has been defined.
    pub init: Option<DataInitModel>,
    /// The id under which the code-generation backend knows this symbol.
    pub backend_id: u32,
}

/// The byte size of a data object's defined contents.
pub open spec fn data_init_size(init: DataInitModel) -> nat {
    match init {
        DataInitModel::Bytes { bytes, .. } => bytes.len(),
        DataInitModel::Zeroed { size, .. } => size,
    }
}

/// Ghost view of a whole symbol table.
pub struct TableModel {
    pub funcs: Seq<FuncModel>,
    pub datas: Seq<DataModel>,
    pub finalized: bool,
}

impl TableModel {
    /// The table of a freshly created module.
    pub open spec fn empty_model() -> TableModel {
        TableModel { funcs: Seq::empty(), datas: Seq::empty(), finalized: false }
    }

    /// Whether some function symbol carries this name.
    pub open spec fn has_func(self, n: Seq<char>) -> bool {
        exists|i: int| 0 <= i < self.funcs.len() && self.funcs[i].name == n
    }

    /// The index of the function symbol carrying this name; meaningful only
    /// under `has_func` and well-formedness.
    pub open spec fn func_index(self, n: Seq<char>) -> int {
        choose|i: int| 0 <= i < self.funcs.len() && self.funcs[i].name == n
    }

    /// Whether some data symbol carries this name.
    pub open spec fn has_data(self, n: Seq<char>) -> bool {
        exists|i: int| 0 <= i < self.datas.len() && self.datas[i].name == n
    }

    /// The index of the data symbol carrying this name; meaningful only
    /// under `has_data` and well-formedness.
    pub open spec fn data_index(self, n: Seq<char>) -> int {
        choose|i: int| 0 <= i < self.datas.len() && self.datas[i].name == n
    }

    /// Whether any symbol, function or data, carries this name.  Functions
    /// and data objects share one namespace.
    pub open spec fn has_symbol(self, n: Seq<char>) -> bool {
        self.has_func(n) || self.has_data(n)
    }

    /// Well-formedness: names are unique across the whole table, and only
    /// `Local`/`Export` symbols ever carry definitions.
    pub open spec fn wf(self) -> bool {
        &&& forall|i: int, j: int|
            0 <= i < j < self.funcs.len() ==> self.funcs[i].name != self.funcs[j].name
        &&& forall|i: int, j: int|
            0 <= i < j < self.datas.len() ==> self.datas[i].name != self.datas[j].name
        &&& forall|i: int, j: int|
            0 <= i < self.funcs.len() && 0 <= j < self.datas.len() ==> self.funcs[i].name
                != self.datas[j].name
        &&& forall|i: int|
            0 <= i < self.funcs.len() && self.funcs[i].defined ==> !(self.funcs[i].linkage
                is Import)
        &&& forall|i: int|
            0 <= i < self.datas.len() && self.datas[i].init is Some ==> !(self.datas[i].linkage
                is Import)
    }

    /// Whether a redeclaration of `n` as a function with linkage `l` and
    /// signature `s` is compatible with the existing declaration, and hence
    /// idempotent.  A differing signature, a differing linkage, or an
    /// existing data symbol of the same name are all incompatible.
    pub open spec fn func_compatible(self, n: Seq<char>, l: Linkage, s: SignatureModel) -> bool {
        &&& self.has_func(n)
        &&& self.funcs[self.func_index(n)].linkage == l
        &&& self.funcs[self.func_index(n)].sig == s
    }

    /// Whether a redeclaration of `n` as a data object with the given
    /// properties is compatible with the existing declaration.
    pub open spec fn data_compatible(self, n: Seq<char>, l: Linkage, writable: bool, tls: bool) -> bool {
        &&& self.has_data(n)
        &&& self.datas[self.data_index(n)].linkage == l
        &&& self.datas[self.data_index(n)].writable == writable
        &&& self.datas[self.data_index(n)].thread_local == tls
    }

    /// The table after appending a fresh function symbol.
    pub open spec fn with_func(self, f: FuncModel) -> TableModel {
        TableModel { funcs: self.funcs.push(f), ..self }
    }

    /// The table after appending a fresh data symbol.
    pub open spec fn with_data(self, d: DataModel) -> TableModel {
        TableModel { datas: self.datas.push(d), ..self }
    }

    /// The table after marking function `i` defined.
    pub open spec fn with_func_defined(self, i: int) -> TableModel {
        TableModel {
            funcs: self.funcs.update(i, FuncModel { defined: true, ..self.funcs[i] }),
            ..self
        }
    }

    /// The table after recording the definition of data object `i`.
    pub open spec fn with_data_defined(self, i: int, init: DataInitModel) -> TableModel {
        TableModel {
            datas: self.datas.update(i, DataModel { init: Some(init), ..self.datas[i] }),
            ..self
        }
    }

    /// The table after finalization.
    pub open spec fn with_finalized(self) -> TableModel {
        TableModel { finalized: true, ..self }
    }

    /// Whether the finalized artifact owes a resolvable address for function
    /// `i`: exactly the functions that were defined before finalization.
    pub open spec fn func_resolvable(self, i: int) -> bool {
        0 <= i < self.funcs.len() && self.funcs[i].defined
    }

    /// Whether the finalized artifact owes a resolvable address for data
    /// object `i`.
    pub open spec fn data_resolvable(self, i: int) -> bool {
        0 <= i < self.datas.len() && self.datas[i].init is Some
    }

    /// Whether every `Local`/`Export` symbol of the table carries a
    /// definition.  In-process finalization demands this: the engine
    /// aborts while relocating a compiled body against a declared but
    /// undefined local symbol.
    pub open spec fn definitions_complete(self) -> bool {
        &&& forall|i: int|
            0 <= i < self.funcs.len() && !(self.funcs[i].linkage is Import)
                ==> self.funcs[i].defined
        &&& forall|i: int|
            0 <= i < self.datas.len() && !(self.datas[i].linkage is Import)
                ==> self.datas[i].init is Some
    }
}

/// What a successful fresh function declaration does to the table: one new
/// record at the end, not yet defined, everything else untouched.  The
/// backend id of the new record is whatever the engine assigned.
pub open spec fn declares_func(
    old_m: TableModel,
    new_m: TableModel,
    n: Seq<char>,
    l: Linkage,
    s: SignatureModel,
) -> bool {
    &&& new_m.finalized == old_m.finalized
    &&& new_m.datas == old_m.datas
    &&& new_m.funcs.len() == old_m.funcs.len() + 1
    &&& new_m.funcs.subrange(0, old_m.funcs.len() as int) == old_m.funcs
    &&& new_m.funcs.last().name == n
    &&& new_m.funcs.last().linkage == l
    &&& new_m.funcs.last().sig == s
    &&& !new_m.funcs.last().defined
}

/// What a successful fresh data declaration does to the table.
pub open spec fn declares_data(
    old_m: TableModel,
    new_m: TableModel,
    n: Seq<char>,
    l: Linkage,
    writable: bool,
    tls: bool,
) -> bool {
    &&& new_m.finalized == old_m.finalized
    &&& new_m.funcs == old_m.funcs
    &&& new_m.datas.len() == old_m.datas.len() + 1
    &&& new_m.datas.subrange(0, old_m.datas.len() as int) == old_m.datas
    &&& new_m.datas.last().name == n
    &&& new_m.datas.last().linkage == l
    &&& new_m.datas.last().writable == writable
    &&& new_m.datas.last().thread_local == tls
    &&& new_m.datas.last().init is None
}

/// What declaring and then defining a fresh data object does to the table:
/// one new record at the end carrying the given contents.
pub open spec fn declares_data_defined(
    old_m: TableModel,
    new_m: TableModel,
    n: Seq<char>,
    l: Linkage,
    writable: bool,
    tls: bool,
    init: DataInitModel,
) -> bool {
    &&& new_m.finalized == old_m.finalized
    &&& new_m.funcs == old_m.funcs
    &&& new_m.datas.len() == old_m.datas.len() + 1
    &&& new_m.datas.subrange(0, old_m.datas.len() as int) == old_m.datas
    &&& new_m.datas.last().name == n
    &&& new_m.datas.last().linkage == l
    &&& new_m.datas.last().writable == writable
    &&& new_m.datas.last().thread_local == tls
    &&& new_m.datas.last().init == Some(init)
}

/// If function `i` carries name `n`, then under well-formedness it is the
/// one function `func_index` picks.
pub proof fn lemma_func_index_unique(m: TableModel, n: Seq<char>, i: int)
    requires
        m.wf(),
        0 <= i < m.funcs.len(),
        m.funcs[i].name == n,
    ensures
        m.has_func(n),
        m.func_index(n) == i,
{
    assert(m.has_func(n));
    let j = m.func_index(n);
    if i < j {
        assert(m.funcs[i].name != m.funcs[j].name);
    } else if j < i {
        assert(m.funcs[j].name != m.funcs[i].name);
    }
}

/// If data object `i` carries name `n`, then under well-formedness it is the
/// one object `data_index` picks.
pub proof fn lemma_data_index_unique(m: TableModel, n: Seq<char>, i: int)
    requires
        m.wf(),
        0 <= i < m.datas.len(),
        m.datas[i].name == n,
    ensures
        m.has_data(n),
        m.data_index(n) == i,
{
    assert(m.has_data(n));
    let j = m.data_index(n);
    if i < j {
        assert(m.datas[i].name != m.datas[j].name);
    } else if j < i {
        assert(m.datas[j].name != m.datas[i].name);
    }
}

/// Appending a fresh, not-yet-defined function symbol preserves
/// well-formedness.
pub proof fn lemma_wf_push_func(m: TableModel, f: FuncModel)
    requires
        m.wf(),
        !m.has_symbol(f.name),
        !f.defined,
    ensures
        m.with_func(f).wf(),
{
    let p = m.with_func(f);
    assert forall|i: int, j: int| 0 <= i < j < p.funcs.len() implies p.funcs[i].name
        != p.funcs[j].name by {
        if j < m.funcs.len() {
            assert(m.funcs[i].name != m.funcs[j].name);
        } else {
            assert(p.funcs[j] == f);
            if p.funcs[i].name == f.name {
                assert(0 <= i < m.funcs.len() && m.funcs[i].name == f.name);
                assert(m.has_func(f.name));
            }
        }
    }
    assert forall|i: int, j: int|
        0 <= i < p.funcs.len() && 0 <= j < p.datas.len() implies p.funcs[i].name
        != p.datas[j].name by {
        if i < m.funcs.len() {
            assert(m.funcs[i].name != m.datas[j].name);
        } else {
            assert(p.funcs[i] == f);
            if f.name == p.datas[j].name {
                assert(0 <= j < m.datas.len() && m.datas[j].name == f.name);
                assert(m.has_data(f.name));
            }
        }
    }
}

/// Appending a fresh, not-yet-defined data symbol preserves
/// well-formedness.
pub proof fn lemma_wf_push_data(m: TableModel, d: DataModel)
    requires
        m.wf(),
        !m.has_symbol(d.name),
        d.init is None,
    ensures
        m.with_data(d).wf(),
{
    let p = m.with_data(d);
    assert forall|i: int, j: int| 0 <= i < j < p.datas.len() implies p.datas[i].name
        != p.datas[j].name by {
        if j < m.datas.len() {
            assert(m.datas[i].name != m.datas[j].name);
        } else {
            assert(p.datas[j] == d);
            if p.datas[i].name == d.name {
                assert(0 <= i < m.datas.len() && m.datas[i].name == d.name);
                assert(m.has_data(d.name));
            }
        }
    }
    assert forall|i: int, j: int|
        0 <= i < p.funcs.len() && 0 <= j < p.datas.len() implies p.funcs[i].name
        != p.datas[j].name by {
        if j < m.datas.len() {
            assert(m.funcs[i].name != m.datas[j].name);
        } else {
            assert(p.datas[j] == d);
            if p.funcs[i].name == d.name {
                assert(0 <= i < m.funcs.len() && m.funcs[i].name == d.name);
                assert(m.has_func(d.name));
            }
        }
    }
}

/// Marking a declared `Local`/`Export` function as defined preserves
/// well-formedness.
pub proof fn lemma_wf_define_func(m: TableModel, i: int)
    requires
        m.wf(),
        0 <= i < m.funcs.len(),
        !(m.funcs[i].linkage is Import),
    ensures
        m.with_func_defined(i).wf(),
{
}

/// Recording the definition of a declared `Local`/`Export` data object
/// preserves well-formedness.
pub proof fn lemma_wf_define_data(m: TableModel, i: int, init: DataInitModel)
    requires
        m.wf(),
        0 <= i < m.datas.len(),
        !(m.datas[i].linkage is Import),
    ensures
        m.with_data_defined(i, init).wf(),
{
}

/// Defining a data object records exactly the given contents against it,
/// and touches neither its mutability nor its storage class nor any other
/// symbol: the table carries content `C` for a symbol defined with `C`,
/// and carries the read-only/writable choice its declaration made.
/// (Whether the finalized artifact's memory then observes `C`, and rejects
/// stores to read-only objects, is the code-generation engine's side of
/// the contract.)
pub proof fn lemma_defined_content_recorded(m: TableModel, i: int, init: DataInitModel)
    requires
        0 <= i < m.datas.len(),
    ensures
        m.with_data_defined(i, init).datas[i].init == Some(init),
        m.with_data_defined(i, init).datas[i].writable == m.datas[i].writable,
        m.with_data_defined(i, init).datas[i].thread_local == m.datas[i].thread_local,
        m.with_data_defined(i, init).datas[i].linkage == m.datas[i].linkage,
        m.with_data_defined(i, init).datas[i].name == m.datas[i].name,
        forall|j: int|
            0 <= j < m.datas.len() && j != i ==> m.with_data_defined(i, init).datas[j]
                == m.datas[j],
        m.with_data_defined(i, init).funcs == m.funcs,
{
}

/// Whether a finalized artifact owes an address for a function depends only
/// on that function's own record, never on where in the declaration order it
/// stands or on what else was declared around it.
pub proof fn lemma_resolvability_order_independent(
    m1: TableModel,
    m2: TableModel,
    i1: int,
    i2: int,
)
    requires
        0 <= i1 < m1.funcs.len(),
        0 <= i2 < m2.funcs.len(),
        m1.funcs[i1] == m2.funcs[i2],
    ensures
        m1.func_resolvable(i1) <==> m2.func_resolvable(i2),
{
}

/// Finalization locks the table without touching any symbol record: every
/// function defined before `finalize` is still there, defined, afterwards.
pub proof fn lemma_finalize_preserves_symbols(m: TableModel)
    ensures
        m.with_finalized().finalized,
        m.with_finalized().funcs == m.funcs,
        m.with_finalized().datas == m.datas,
        forall|i: int| m.func_resolvable(i) ==> m.with_finalized().func_resolvable(i),
        forall|i: int| m.data_resolvable(i) ==> m.with_finalized().data_resolvable(i),
{
}

/// One defined symbol of the executable table.
pub struct FunctionSymbol {
    pub name: String,
    pub linkage: Linkage,
    pub signature: FunctionSignature,
    pub defined: bool,
    pub backend_id: u32,
}

impl View for FunctionSymbol {
    type V = FuncModel;

    open spec fn view(&self) -> FuncModel {
        FuncModel {
            name: self.name@,
            linkage: self.linkage,
            sig: self.signature@,
            defined: self.defined,
            backend_id: self.backend_id,
        }
    }
}

/// The defined contents of a data object.
pub enum DataContent {
    Bytes { bytes: Vec<u8>, align: u64 },
    Zeroed { size: usize, align: u64 },
}

impl View for DataContent {
    type V = DataInitModel;

    open spec fn view(&self) -> DataInitModel {
        match self {
            DataContent::Bytes { bytes, align } => DataInitModel::Bytes {
                bytes: bytes@,
                align: *align,
            },
            DataContent::Zeroed { size, align } => DataInitModel::Zeroed {
                size: *size as nat,
                align: *align,
            },
        }
    }
}

/// One data symbol of the executable table.
pub struct DataSymbol {
    pub name: String,
    pub linkage: Linkage,
    pub writable: bool,
    pub thread_local: bool,
    pub content: Option<DataContent>,
    pub backend_id: u32,
}

impl View for DataSymbol {
    type V = DataModel;

    open spec fn view(&self) -> DataModel {
        DataModel {
            name: self.name@,
            linkage: self.linkage,
            writable: self.writable,
            thread_local: self.thread_local,
            init: match &self.content {
                Some(c) => Some(c@),
                None => None,
            },
            backend_id: self.backend_id,
        }
    }
}

/// The executable symbol table of one module.
pub struct SymbolTable {
    pub funcs: Vec<FunctionSymbol>,
    pub datas: Vec<DataSymbol>,
    pub finalized: bool,
}

impl View for SymbolTable {
    type V = TableModel;

    open spec fn view(&self) -> TableModel {
        TableModel {
            funcs: self.funcs@.map_values(|f: FunctionSymbol| f@),
            datas: self.datas@.map_values(|d: DataSymbol| d@),
            finalized: self.finalized,
        }
    }
}

/// A reference to a symbol found by name.
pub enum SymbolRef {
    Function(usize),
    Data(usize),
}

impl SymbolTable {
    /// The table of a freshly created module: no symbols, not finalized.
    pub fn new() -> (r: SymbolTable)
        ensures
            r@ == TableModel::empty_model(),
            r@.wf(),
    {
        let r = SymbolTable { funcs: Vec::new(), datas: Vec::new(), finalized: false };
        proof {
            assert(r@.funcs =~= TableModel::empty_model().funcs);
            assert(r@.datas =~= TableModel::empty_model().datas);
        }
        r
    }

    /// Finds the symbol declared under `name`, if any.  Functions and data
    /// objects share one namespace, so at most one of the two kinds can
    /// match.
    pub fn lookup(&self, name: &str) -> (r: Option<SymbolRef>)
        requires
            self@.wf(),
        ensures
            (match r {
                Some(SymbolRef::Function(i)) => self@.has_func(name@) && i == self@.func_index(
                    name@,
                ),
                Some(SymbolRef::Data(i)) => self@.has_data(name@) && i == self@.data_index(name@),
                None => !self@.has_symbol(name@),
            }),
            self@.has_func(name@) ==> (r matches Some(SymbolRef::Function(i)) && i
                == self@.func_index(name@)),
            self@.has_data(name@) ==> (r matches Some(SymbolRef::Data(i)) && i
                == self@.data_index(name@)),
    {
        let needle: String = name.to_owned();
        let mut i: usize = 0;
        while i < self.funcs.len()
            invariant
                self@.wf(),
                needle@ == name@,
                i <= self.funcs.len(),
                forall|k: int| 0 <= k < i ==> self@.funcs[k].name != name@,
            decreases self.funcs.len() - i,
        {
            if self.funcs[i].name == needle {
                proof {
                    lemma_func_index_unique(self@, name@, i as int);
                }
                return Some(SymbolRef::Function(i));
            }
            i = i + 1;
        }
        proof {
            assert_by_contradiction!(!self@.has_func(name@), {
                let k = choose|k: int| 0 <= k < self@.funcs.len() && self@.funcs[k].name == name@;
                assert(self@.funcs[k].name != name@);
            });
        }
        let mut j: usize = 0;
        while j < self.datas.len()
            invariant
                self@.wf(),
                needle@ == name@,
                j <= self.datas.len(),
                forall|k: int| 0 <= k < j ==> self@.datas[k].name != name@,
                !self@.has_func(name@),
            decreases self.datas.len() - j,
        {
            if self.datas[j].name == needle {
                proof {
                    lemma_data_index_unique(self@, name@, j as int);
                }
                return Some(SymbolRef::Data(j));
            }
            j = j + 1;
        }
        proof {
            assert_by_contradiction!(!self@.has_data(name@), {
                let k = choose|k: int| 0 <= k < self@.datas.len() && self@.datas[k].name == name@;
                assert(self@.datas[k].name != name@);
            });
        }
        None
    }
}

} // verus!
