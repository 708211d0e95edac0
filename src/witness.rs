use vstd::prelude::*;

use crate::fetcher::copy_bytes;
use crate::types::Query;

verus! {

/// The tables of a compiled module that name it and its functions.
#[derive(Clone, Debug)]
pub struct ModuleTables {
    /// The module's own address.
    pub address: Vec<u8>,
    /// The module's own name.
    pub name: Vec<u8>,
    /// For each function definition, the index of its function handle.
    pub function_defs: Vec<u16>,
    /// For each function handle, the index of its name among the identifiers.
    pub function_handles: Vec<u16>,
    pub identifiers: Vec<String>,
}

/// Why the entry point of a query could not be determined.
#[derive(Copy, Clone, Debug, PartialEq, Eq)]
pub enum WitnessError {
    /// No module with the query's address and name was given.
    ModuleNotFound,
    /// The function index lies beyond the module's function definitions.
    FunctionIndexOutOfRange,
    /// A table index inside the module points past its table.
    MalformedModule,
}

impl ModuleTables {
    /// The number of functions the module defines.
    pub open spec fn function_count(self) -> nat {
        self.function_defs@.len()
    }

    /// Every handle and name index of the module lies inside its table.
    pub open spec fn wf(self) -> bool {
        &&& forall|i: int|
            0 <= i < self.function_defs@.len() ==> (#[trigger] self.function_defs@[i] as int)
                < self.function_handles@.len()
        &&& forall|h: int|
            0 <= h < self.function_handles@.len() ==> (#[trigger] self.function_handles@[h] as int)
                < self.identifiers@.len()
    }

    /// The index among the identifiers of the name of the `i`-th defined
    /// function, if the tables lead there.
    pub open spec fn name_index(self, i: int) -> Option<int> {
        if 0 <= i < self.function_defs@.len() {
            let h = self.function_defs@[i] as int;
            if h < self.function_handles@.len() {
                let n = self.function_handles@[h] as int;
                if n < self.identifiers@.len() {
                    Some(n)
                } else {
                    None
                }
            } else {
                None
            }
        } else {
            None
        }
    }

    /// The name of the `index`-th defined function, found through its handle.
    pub fn entry_function_name(&self, index: u16) -> (r: Result<&String, WitnessError>)
        ensures
            index as int >= self.function_count() ==> r == Err::<&String, WitnessError>(
                WitnessError::FunctionIndexOutOfRange,
            ),
            (index as int) < self.function_count() ==> match self.name_index(index as int) {
                Some(n) => r matches Ok(name) && *name == self.identifiers@[n],
                None => r == Err::<&String, WitnessError>(WitnessError::MalformedModule),
            },
    {
        let i = index as usize;
        if i >= self.function_defs.len() {
            return Err(WitnessError::FunctionIndexOutOfRange);
        }
        let h = self.function_defs[i] as usize;
        if h >= self.function_handles.len() {
            return Err(WitnessError::MalformedModule);
        }
        let n = self.function_handles[h] as usize;
        if n >= self.identifiers.len() {
            return Err(WitnessError::MalformedModule);
        }
        Ok(&self.identifiers[n])
    }
}

/// In a well-formed module with `N` functions, each index below `N` resolves
/// to the name of that function, and every index from `N` on fails.
pub proof fn lemma_function_index_resolution(m: ModuleTables, i: int)
    requires
        m.wf(),
    ensures
        0 <= i < m.function_count() ==> m.name_index(i) == Some(
            m.function_handles@[m.function_defs@[i] as int] as int,
        ),
        i >= m.function_count() ==> m.name_index(i) is None,
{
    if 0 <= i < m.function_count() {
        let h = m.function_defs@[i] as int;
        assert(h < m.function_handles@.len());
        assert(m.function_handles@[h] < m.identifiers@.len());
    }
}

fn bytes_equal(a: &Vec<u8>, b: &Vec<u8>) -> (r: bool)
    ensures
        r == (a@ == b@),
{
    if a.len() != b.len() {
        return false;
    }
    let mut i: usize = 0;
    while i < a.len()
        invariant
            a@.len() == b@.len(),
            i <= a@.len(),
            forall|j: int| 0 <= j < i ==> a@[j] == b@[j],
        decreases a@.len() - i,
    {
        if a[i] != b[i] {
            return false;
        }
        i = i + 1;
    }
    assert(a@ =~= b@);
    true
}

/// `m` is the module at `address` named `name`.
pub open spec fn has_id(m: ModuleTables, address: Seq<u8>, name: Seq<u8>) -> bool {
    m.address@ == address && m.name@ == name
}

/// Module `i` is the last of `modules` with the given id, the one that a
/// later registration has not replaced.
pub open spec fn is_registered(modules: Seq<ModuleTables>, i: int, address: Seq<u8>, name: Seq<u8>) -> bool {
    &&& 0 <= i < modules.len()
    &&& has_id(modules[i], address, name)
    &&& forall|j: int| i < j < modules.len() ==> !has_id(#[trigger] modules[j], address, name)
}

/// The module registered under an id, if any of `modules` has it.
pub fn find_module(modules: &Vec<ModuleTables>, address: &Vec<u8>, name: &Vec<u8>) -> (r: Option<usize>)
    ensures
        match r {
            Some(i) => is_registered(modules@, i as int, address@, name@),
            None => forall|j: int|
                0 <= j < modules@.len() ==> !has_id(#[trigger] modules@[j], address@, name@),
        },
{
    let mut k: usize = modules.len();
    while k > 0
        invariant
            k <= modules@.len(),
            forall|j: int| k <= j < modules@.len() ==> !has_id(#[trigger] modules@[j], address@, name@),
        decreases k,
    {
        let m = &modules[k - 1];
        if bytes_equal(&m.address, address) && bytes_equal(&m.name, name) {
            return Some(k - 1);
        }
        k = k - 1;
    }
    None
}

/// The entry point of a query: the index of its module among `modules` and
/// the name of the function at its index there.
pub fn resolve_entry<'a>(query: &Query, modules: &'a Vec<ModuleTables>) -> (r: Result<
    (usize, &'a String),
    WitnessError,
>)
    ensures
        (r matches Err(WitnessError::ModuleNotFound)) <==> forall|j: int|
            0 <= j < modules@.len() ==> !has_id(#[trigger] modules@[j], query.module_address@, query.module_name@),
        match r {
            Ok((i, name)) => {
                &&& is_registered(modules@, i as int, query.module_address@, query.module_name@)
                &&& modules@[i as int].name_index(query.function_index as int) matches Some(n)
                &&& *name == modules@[i as int].identifiers@[n]
            },
            Err(e) => e != WitnessError::ModuleNotFound ==> exists|i: int|
                #[trigger] is_registered(modules@, i, query.module_address@, query.module_name@)
                && modules@[i].name_index(query.function_index as int) is None
                && (e == WitnessError::FunctionIndexOutOfRange
                    <==> query.function_index >= modules@[i].function_count()),
        },
{
    match find_module(modules, &query.module_address, &query.module_name) {
        None => Err(WitnessError::ModuleNotFound),
        Some(i) => match modules[i].entry_function_name(query.function_index) {
            Ok(name) => Ok((i, name)),
            Err(e) => Err(e),
        },
    }
}

/// The text that `bytes` encode in UTF-8, or `None` when they are not valid UTF-8.
pub uninterp spec fn utf8_text(bytes: Seq<u8>) -> Option<Seq<char>>;

/// Relies on `String::from_utf8`: it returns the encoded text when the bytes
/// are valid UTF-8 and an error otherwise.
#[verifier::external_body]
fn text_of(bytes: Vec<u8>) -> (r: Option<String>)
    ensures
        match utf8_text(bytes@) {
            Some(t) => r matches Some(s) && s@ == t,
            None => r is None,
        },
{
    String::from_utf8(bytes).ok()
}

/// Decodes the argument texts of a query: all of them, in order, or the
/// position of the first that is not valid UTF-8.
pub fn decode_texts(items: &Vec<Vec<u8>>) -> (r: Result<Vec<String>, usize>)
    ensures
        match r {
            Ok(texts) => texts@.len() == items@.len() && forall|i: int|
                0 <= i < items@.len() ==> utf8_text(#[trigger] items@[i]@) == Some(texts@[i]@),
            Err(k) => k < items@.len() && utf8_text(items@[k as int]@) is None && forall|i: int|
                0 <= i < k ==> utf8_text(#[trigger] items@[i]@) is Some,
        },
{
    let mut texts: Vec<String> = Vec::new();
    let mut i: usize = 0;
    while i < items.len()
        invariant
            i <= items@.len(),
            texts@.len() == i,
            forall|j: int| 0 <= j < i ==> utf8_text(#[trigger] items@[j]@) == Some(texts@[j]@),
        decreases items@.len() - i,
    {
        match text_of(copy_bytes(&items[i])) {
            Some(t) => texts.push(t),
            None => return Err(i),
        }
        i = i + 1;
    }
    Ok(texts)
}

} // verus!
