use vstd::prelude::*;

verus! {

/// A character in a symbol string.
#[derive(Clone, Copy, PartialEq, Eq, Structural, Debug)]
pub struct C {
    pub ch: char,
}

/// A name that identifies a foreign type. Two symbols stand for the same
/// identity exactly when their names are equal, wherever they were built.
#[derive(Debug)]
pub struct Symbol {
    name: String,
}

impl View for Symbol {
    type V = Seq<char>;

    closed spec fn view(&self) -> Seq<char> {
        self.name@
    }
}

impl Symbol {
    /// Builds the identity of the given name.
    pub fn new(name: &str) -> (r: Symbol)
        ensures
            r@ == name@,
    {
        Symbol { name: name.to_owned() }
    }

    /// Number of characters in the name.
    pub fn len(&self) -> (r: usize)
        ensures
            r as int == self@.len(),
    {
        self.name.as_str().unicode_len()
    }

    /// The `i`-th character of the name.
    pub fn char_at(&self, i: usize) -> (r: C)
        requires
            i < self@.len(),
        ensures
            r.ch == self@[i as int],
    {
        C { ch: self.name.as_str().get_char(i) }
    }

    /// Whether two symbols denote the same identity.
    pub fn same_as(&self, other: &Symbol) -> (r: bool)
        ensures
            r == (self@ == other@),
    {
        self.name == other.name
    }
}

} // verus!
