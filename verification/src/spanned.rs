use crate::Span;
use vstd::prelude::*;
use vstd::std_specs::cmp::PartialEqSpec;

verus! {

/// A value of type `T` together with the span in the source text where it
/// was recognised.
///
/// The wrapped value is deliberately a public field, so callers can read and
/// replace it in place while the span stays attached.
#[derive(Debug)]
pub struct Spanned<T> {
    pub inner: T,
    pub span: Span,
}

impl<T> Spanned<T> {
    /// Wraps `inner` together with `span`; no validation is performed.
    pub fn new(inner: T, span: Span) -> (r: Self)
        ensures
            r.inner == inner,
            r.span == span,
    {
        Self { inner, span }
    }

    /// Consumes the wrapper and returns the wrapped value, discarding the span.
    pub fn unwrap(self) -> (r: T)
        ensures
            r == self.inner,
    {
        self.inner
    }

    /// A copy of the span associated with the wrapped value.
    pub fn span(&self) -> (r: Span)
        ensures
            r == self.span,
    {
        Span { start: self.span.start, end: self.span.end }
    }
}

impl<T, E> Spanned<Result<T, E>> {
    /// Unzips a `Spanned<Result<T, E>>` into a `Result<Spanned<T>, Spanned<E>>`.
    ///
    /// A wrapped `Ok(t)` becomes `Ok` of `t` wrapped with the same span; a
    /// wrapped `Err(e)` becomes `Err` of `e` wrapped with the same span.
    pub fn unzip(self) -> (r: Result<Spanned<T>, Spanned<E>>)
        ensures
            match self.inner {
                Ok(t) => r matches Ok(s) && s.inner == t && s.span == self.span,
                Err(e) => r matches Err(s) && s.inner == e && s.span == self.span,
            },
    {
        match self.inner {
            Ok(t) => Ok(Spanned::new(t, self.span)),
            Err(e) => Err(Spanned::new(e, self.span)),
        }
    }
}

impl<T> Spanned<Option<T>> {
    /// Unzips a `Spanned<Option<T>>` into an `Option<Spanned<T>>`.
    ///
    /// A wrapped `Some(t)` becomes `Some` of `t` wrapped with the same span;
    /// a wrapped `None` becomes `None`.
    pub fn unzip(self) -> (r: Option<Spanned<T>>)
        ensures
            match self.inner {
                Some(t) => r matches Some(s) && s.inner == t && s.span == self.span,
                None => r is None,
            },
    {
        match self.inner {
            Some(t) => Some(Spanned::new(t, self.span)),
            None => None,
        }
    }
}

impl<'a, T> Spanned<&'a T> {
    /// Maps a `Spanned<&T>` to a `Spanned<T>` by copying the referenced value.
    pub fn copied(self) -> (r: Spanned<T>)
        where T: Copy,
        ensures
            r.inner == *self.inner,
            r.span == self.span,
    {
        Spanned { inner: *self.inner, span: self.span }
    }

    /// Maps a `Spanned<&T>` to a `Spanned<T>` by cloning the referenced value.
    pub fn cloned(self) -> (r: Spanned<T>)
        where T: Clone,
        ensures
            cloned::<T>(*self.inner, r.inner),
            r.span == self.span,
    {
        Spanned { inner: self.inner.clone(), span: self.span }
    }
}

impl<T: Clone> Clone for Spanned<T> {
    /// Clones the wrapped value and copies the span.
    fn clone(&self) -> (r: Self)
        ensures
            cloned::<T>(self.inner, r.inner),
            r.span == self.span,
    {
        Spanned {
            inner: self.inner.clone(),
            span: Span { start: self.span.start, end: self.span.end },
        }
    }
}

impl<T> core::ops::Deref for Spanned<T> {
    type Target = T;

    /// The wrapper stands in for the wrapped value: dereferencing yields it.
    fn deref(&self) -> (r: &T)
        ensures
            *r == self.inner,
    {
        &self.inner
    }
}

impl<'a, T> From<&'a Spanned<T>> for Spanned<&'a T> {
    /// Borrows the wrapped value into a new wrapper with the same span,
    /// without consuming the original.
    fn from(value: &'a Spanned<T>) -> (r: Self) {
        Spanned { inner: &value.inner, span: Span { start: value.span.start, end: value.span.end } }
    }
}

impl<'a, T> vstd::std_specs::convert::FromSpecImpl<&'a Spanned<T>> for Spanned<&'a T> {
    open spec fn obeys_from_spec() -> bool {
        true
    }

    open spec fn from_spec(value: &'a Spanned<T>) -> Self {
        Spanned { inner: &value.inner, span: value.span }
    }
}

impl<T: PartialEq> PartialEq for Spanned<T> {
    /// Two wrappers are equal iff both the wrapped values and the spans are equal.
    fn eq(&self, other: &Self) -> (r: bool) {
        self.inner == other.inner && self.span.start == other.span.start
            && self.span.end == other.span.end
    }
}

impl<T: PartialEq> vstd::std_specs::cmp::PartialEqSpecImpl for Spanned<T> {
    open spec fn obeys_eq_spec() -> bool {
        T::obeys_eq_spec()
    }

    open spec fn eq_spec(&self, other: &Self) -> bool {
        self.inner.eq_spec(&other.inner) && self.span == other.span
    }
}

/// Equality respects every field: wrappers whose spans differ are never
/// equal, whatever the wrapped values are.
pub proof fn lemma_spanned_eq_respects_span<T: PartialEq>(a: Spanned<T>, b: Spanned<T>)
    requires
        a.span != b.span,
    ensures
        !a.eq_spec(&b),
{
}

} // verus!
