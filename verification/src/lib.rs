//! A provider for a single immutable text resource that is embedded in the
//! binary at build time and served, as an owned copy, to every caller.
//!
//! The resource is conventionally JSON, but this crate treats it as an opaque
//! sequence of characters: it is never parsed, validated or transformed here.

use vstd::prelude::*;

verus! {

/// The embedded resource. It is fixed at build time, never mutated, and
/// identical for the lifetime of the process.
pub const ENA_DATA: &'static str = "{\"name\":\"ena\",\"version\":1,\"records\":[\"alpha\",\"beta\"]}";

/// The contents of the embedded resource, as contracts speak of them.
pub open spec fn ena_data() -> Seq<char> {
    ENA_DATA@
}

/// A provider of one immutable text resource: the resource is loaded once,
/// at construction, and every call of the accessor returns an independent,
/// owned copy of it. The provider itself is never mutated.
pub struct DataProvider {
    data: String,
}

impl View for DataProvider {
    type V = Seq<char>;

    closed spec fn view(&self) -> Seq<char> {
        self.data@
    }
}

impl DataProvider {
    /// Load the given text as the provider's resource.
    pub fn new(data: String) -> (p: DataProvider)
        ensures
            p@ == data@,
    {
        DataProvider { data }
    }

    /// The accessor: an owned copy of the resource, character for character;
    /// the provider is left untouched.
    pub fn get(&self) -> (r: String)
        ensures
            r@ == self@,
    {
        self.data.clone()
    }
}

/// The accessor for the embedded resource: returns an independent, owned
/// copy of it. It takes no input, cannot fail, and returns the same text on
/// every call within one build.
pub fn get_ena_data() -> (r: String)
    ensures
        r@ == ena_data(),
{
    let provider = DataProvider::new(ENA_DATA.to_owned());
    provider.get()
}

/// Determinism of the accessor: any two values that its contract admits are
/// equal to each other, so every call returns the same text.
pub proof fn lemma_accessor_deterministic(a: Seq<char>, b: Seq<char>)
    requires
        a == ena_data(),
        b == ena_data(),
    ensures
        a == b,
{
}

} // verus!
