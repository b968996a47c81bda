use vstd::prelude::*;

verus! {

/// Identity of a running virtual machine instance: an opaque 128-bit token.
///
/// The relay interprets no structure inside it; it only compares identities
/// for equality to detect that the machine it tunnels to has been replaced.
#[derive(Clone, Copy, PartialEq, Eq, Structural, Debug)]
pub struct VmId {
    pub raw: u128,
}

impl VmId {
    pub fn new(raw: u128) -> (v: VmId)
        ensures
            v.raw == raw,
    {
        VmId { raw }
    }
}

/// Equality of two optional identities, as the supervisor's poll compares
/// the freshly observed identity with the one it is running for.
pub fn same_identity(a: &Option<VmId>, b: &Option<VmId>) -> (r: bool)
    ensures
        r == (a == b),
{
    match (a, b) {
        (Some(x), Some(y)) => x.raw == y.raw,
        (None, None) => true,
        _ => false,
    }
}

} // verus!
