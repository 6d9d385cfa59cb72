use vstd::prelude::*;

verus! {

/// A vulnerability record as a source reports it. Lookups carry it through
/// unchanged.
#[derive(Clone, Debug, PartialEq, Eq)]
pub struct Vulnerability {
    pub id: String,
    pub summary: String,
    pub severity: Option<String>,
    pub advisory: Option<String>,
}

/// The records of `a`, in order, followed by those of `b`, in order; nothing
/// is removed or reordered.
pub fn merge(a: Vec<Vulnerability>, b: Vec<Vulnerability>) -> (r: Vec<Vulnerability>)
    ensures
        r@ == a@ + b@,
{
    let mut r = a;
    let mut b = b;
    r.append(&mut b);
    r
}

}
