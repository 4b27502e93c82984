use vstd::prelude::*;

verus! {

/// A value that can be printed and identified by its concrete type at run
/// time.
///
/// Each implementing type carries a tag, `TAG`. A type has exactly one tag, so
/// two types with different tags are different types: a check on the concrete
/// type fails between them. Equal tags prove nothing; the concrete type alone
/// decides whether a check succeeds.
pub trait Shapeless: core::fmt::Debug + Sized + 'static {
    /// The tag of the implementing type.
    const TAG: u64;

    /// The value itself, seen through the capability.
    fn as_opaque(&self) -> (r: &Self)
        ensures
            r == self,
    {
        self
    }

    /// A stable name of the concrete type, for diagnostics; types are never
    /// compared by it.
    fn type_label(&self) -> &'static str;
}

} // verus!
