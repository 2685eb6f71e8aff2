use vstd::prelude::*;

verus! {

/// The source encoding the engine settled on, known by its name.
#[derive(Debug)]
pub struct Encoding {
    name: String,
}

impl View for Encoding {
    type V = Seq<char>;

    closed spec fn view(&self) -> Seq<char> {
        self.name@
    }
}

impl Encoding {
    pub fn new(name: String) -> (r: Encoding)
        ensures
            r@ == name@,
    {
        Encoding { name }
    }

    pub fn name(&self) -> (r: &str)
        ensures
            r@ == self@,
    {
        self.name.as_str()
    }
}

} // verus!
