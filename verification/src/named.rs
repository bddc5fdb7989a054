//! Names: brands that tie a proposition to one value.

use core::marker::PhantomData;
use core::ops::Deref;
use vstd::prelude::*;

verus! {

/// A name. The lifetime `'name` is the brand.
///
/// A name holds no data and is never compared when the program runs. Two names are
/// told apart by their lifetimes alone, and the lifetime is invariant, so the
/// compiler neither shortens nor lengthens it to make two brands meet. The only
/// source of a name is [`name`]: two names of one brand are the same name or clones
/// of it.
pub struct Name<'name>(PhantomData<&'name mut &'name ()>);

impl<'name> Name<'name> {
    /// The value that every name has once lifetimes are set aside.
    pub closed spec fn brand() -> Self {
        Name(PhantomData)
    }

    /// A name carries nothing: in specifications, where lifetimes do not appear, all
    /// names are one value.
    pub proof fn lemma_unique(self)
        ensures
            self == Self::brand(),
    {
    }
}

impl<'name> Clone for Name<'name> {
    fn clone(&self) -> (r: Self)
        ensures
            r == *self,
    {
        Name(PhantomData)
    }
}

/// Makes the name for one call of [`name`].
///
/// It is private: outside this module a name comes from [`name`] or is a clone of one
/// that did, so no caller can make a name of a brand of its own choosing.
fn gen<'name>() -> (r: Name<'name>)
    ensures
        r == Name::brand(),
    no_unwind
{
    Name(PhantomData)
}

/// A value of type `V` together with its name.
pub struct Named<'name, V>(Name<'name>, V);

impl<'name, V> View for Named<'name, V> {
    type V = V;

    /// The value that was named.
    closed spec fn view(&self) -> V {
        self.1
    }
}

impl<'name, V> Named<'name, V> {
    /// The pairing of `value` with a name.
    pub closed spec fn of(value: V) -> Self {
        Named(Name(PhantomData), value)
    }

    /// The name that the value is paired with.
    pub closed spec fn spec_name(self) -> Name<'name> {
        self.0
    }

    /// Naming a value leaves the value as it is.
    pub proof fn lemma_of_view(value: V)
        ensures
            Self::of(value)@ == value,
    {
    }

    /// A named value is known by its value alone.
    pub proof fn lemma_view_of(self)
        ensures
            Self::of(self@) == self,
    {
    }

    /// Gives up the value and keeps the name.
    #[verifier::when_used_as_spec(spec_name)]
    pub fn name(self) -> (r: Name<'name>)
        ensures
            r == self.spec_name(),
        no_unwind
    {
        self.0
    }
}

impl<'name, V: Clone> Clone for Named<'name, V> {
    /// The copy has the same name, and for its value a clone of the value.
    fn clone(&self) -> (r: Self)
        ensures
            r.spec_name() == self.spec_name(),
            cloned(self@, r@),
    {
        Named(self.0.clone(), self.1.clone())
    }
}

impl<'name, V> Deref for Named<'name, V> {
    type Target = V;

    fn deref(&self) -> (r: &V)
        ensures
            *r == self@,
    {
        &self.1
    }
}

/// Names `value` and runs `f` on the named value; what `f` returns is returned.
///
/// `f` has to accept every brand, so it can rely on nothing about the one it gets but
/// that it stays the same throughout the call. The brand is new with each call and
/// cannot leave `f`: no two calls share a brand, even when they name equal values.
pub fn name<V, T>(value: V, f: impl for<'name> FnOnce(Named<'name, V>) -> T) -> (r: T)
    requires
        f.requires((Named::of(value),)),
    ensures
        f.ensures((Named::of(value),), r),
{
    f(Named(gen(), value))
}

} // verus!
