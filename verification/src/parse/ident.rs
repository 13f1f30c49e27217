use vstd::prelude::*;

verus! {

/// An identifier's name. Two identifiers are equal exactly when their text
/// is, however each was made.
#[derive(Debug, Eq, Hash)]
pub struct Ident {
    ident: String,
}

impl View for Ident {
    type V = Seq<char>;

    closed spec fn view(&self) -> Seq<char> {
        self.ident@
    }
}

impl Ident {
    pub fn new(ident: &str) -> (id: Ident)
        ensures
            id@ == ident@,
    {
        Ident { ident: ident.to_owned() }
    }

    pub fn as_str(&self) -> (s: &str)
        ensures
            s@ == self@,
    {
        self.ident.as_str()
    }
}

impl PartialEq for Ident {
    fn eq(&self, other: &Ident) -> (equal: bool) {
        self.ident == other.ident
    }
}

impl vstd::std_specs::cmp::PartialEqSpecImpl for Ident {
    open spec fn obeys_eq_spec() -> bool {
        true
    }

    open spec fn eq_spec(&self, other: &Ident) -> bool {
        self@ == other@
    }
}

impl Clone for Ident {
    fn clone(&self) -> (id: Ident)
        ensures
            id@ == self@,
    {
        Ident { ident: self.ident.clone() }
    }
}

} // verus!
