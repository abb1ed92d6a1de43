//! What the runtime attaches to each request: the script to run and the
//! directory it is served from.

use vstd::prelude::*;

verus! {

/// The script name and document root of a request.
#[derive(Clone, Copy, Debug)]
pub struct RuntimeContext<'a> {
    script_name: &'a str,
    document_root: &'a str,
}

impl<'a> RuntimeContext<'a> {
    /// The script name, as text.
    pub closed spec fn spec_script_name(&self) -> Seq<char> {
        self.script_name@
    }

    /// The document root, as text.
    pub closed spec fn spec_document_root(&self) -> Seq<char> {
        self.document_root@
    }

    pub fn new(script_name: &'a str, document_root: &'a str) -> (r: Self)
        ensures
            r.spec_script_name() == script_name@,
            r.spec_document_root() == document_root@,
    {
        RuntimeContext { script_name, document_root }
    }

    pub fn script_name(&self) -> (r: &'a str)
        ensures
            r@ == self.spec_script_name(),
    {
        self.script_name
    }

    pub fn document_root(&self) -> (r: &'a str)
        ensures
            r@ == self.spec_document_root(),
    {
        self.document_root
    }
}

} // verus!
