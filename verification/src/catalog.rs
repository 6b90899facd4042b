use vstd::prelude::*;

use crate::errors::CatalogError;
use vstd::string::StringExecFns;

verus! {

/// The examples of one checkout: the entry names found directly under its
/// `examples` directory, in enumeration order.
#[derive(Debug)]
pub struct ExampleCatalog {
    names: Vec<String>,
}

impl View for ExampleCatalog {
    type V = Seq<Seq<char>>;

    closed spec fn view(&self) -> Seq<Seq<char>> {
        self.names@.map_values(|n: String| n@)
    }
}

impl ExampleCatalog {
    /// Builds the catalog of a checkout from the entry names its caller
    /// enumerated, or reports that the checkout has no `examples`
    /// directory at all.
    pub fn new(examples_dir_exists: bool, names: Vec<String>) -> (r: Result<
        ExampleCatalog,
        CatalogError,
    >)
        ensures
            r is Ok <==> examples_dir_exists,
            r is Ok ==> r->Ok_0@ == names@.map_values(|n: String| n@),
            r is Err ==> r->Err_0 == CatalogError::NoExamplesDirectory,
    {
        if examples_dir_exists {
            Ok(ExampleCatalog { names })
        } else {
            Err(CatalogError::NoExamplesDirectory)
        }
    }

    /// How many examples the catalog holds.
    pub fn len(&self) -> (n: usize)
        ensures
            n == self@.len(),
    {
        self.names.len()
    }

    /// The catalogued names, for presentation to the operator.
    pub fn entries(&self) -> (r: &Vec<String>)
        ensures
            r@.map_values(|n: String| n@) == self@,
    {
        &self.names
    }

    /// The position of a name among the catalogued entries, if it is one.
    pub fn find(&self, name: &String) -> (r: Option<usize>)
        ensures
            r is Some <==> self@.contains(name@),
            r is Some ==> r->0 < self@.len() && self@[r->0 as int] == name@,
    {
        let mut i: usize = 0;
        while i < self.names.len()
            invariant
                i <= self.names.len(),
                forall|w: int| 0 <= w < i ==> self@[w] != name@,
            decreases self.names.len() - i,
        {
            if self.names[i] == *name {
                assert(self@[i as int] == name@);
                return Some(i);
            }
            i = i + 1;
        }
        assert(forall|w: int| 0 <= w < self@.len() ==> self@[w] != name@);
        None
    }

    /// Resolves the operator's choice to the example's source path,
    /// `<checkout_root>/examples/<name>`, and fails exactly when the
    /// requested name is not among the catalogued entries.
    pub fn resolve_choice(&self, checkout_root: &String, name: &String) -> (r: Result<
        String,
        CatalogError,
    >)
        ensures
            r is Ok <==> self@.contains(name@),
            r is Ok ==> r->Ok_0@ == checkout_root@ + "/examples/"@ + name@,
            r is Err ==> r->Err_0 == CatalogError::ExampleNotFound,
    {
        match self.find(name) {
            Some(_) => {
                let mut path = checkout_root.clone();
                path.append("/examples/");
                path.append(name.as_str());
                Ok(path)
            },
            None => Err(CatalogError::ExampleNotFound),
        }
    }
}

/// Catalog completeness: a catalog built from N names lists exactly those N
/// entries (the `ensures` of `ExampleCatalog::new`), and every listed name
/// is found again — so, by the contract of `resolve_choice`, resolving any
/// listed name succeeds.
pub proof fn lemma_catalog_complete(c: ExampleCatalog, i: int)
    requires
        0 <= i < c@.len(),
    ensures
        c@.contains(c@[i]),
{
}

} // verus!
