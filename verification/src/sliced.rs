use crate::text::{str_eq, str_slice_range};
use crate::Span;
use vstd::prelude::*;
use vstd::std_specs::cmp::PartialEqSpec;
use vstd::string::StringSliceAdditionalSpecFns;
use vstd::utf8::is_char_boundary;

verus! {

/// A value of type `T` together with the span in the source text where it was
/// recognised, and a borrowed reference to that source text, so the spanned
/// substring can be recovered on demand.
///
/// The wrapper never outlives the borrowed text; the wrapped value is a
/// public field, so callers can read and replace it in place.
#[derive(Debug)]
pub struct Sliced<'source, T> {
    pub inner: T,
    pub span: Span,
    pub source: &'source str,
}

/// Whether `span` selects a well-formed substring of `source`: in order, in
/// bounds, and aligned to character boundaries. Recovering the slice of a
/// wrapper whose span violates this is a caller error and faults.
pub open spec fn span_in_bounds(span: Span, source: &str) -> bool {
    &&& span.start <= span.end <= source.spec_bytes().len()
    &&& is_char_boundary(source.spec_bytes(), span.start as int)
    &&& is_char_boundary(source.spec_bytes(), span.end as int)
}

impl<'source, T> Sliced<'source, T> {
    /// Wraps `inner` together with `span` and the borrowed `source` text; no
    /// validation is performed.
    pub fn new(inner: T, span: Span, source: &'source str) -> (r: Self)
        ensures
            r.inner == inner,
            r.span == span,
            r.source@ == source@,
    {
        Self { inner, span, source }
    }

    /// A copy of the span associated with the wrapped value.
    pub fn span(&self) -> (r: Span)
        ensures
            r == self.span,
    {
        Span { start: self.span.start, end: self.span.end }
    }

    /// The substring of the source text that the span selects: the bytes
    /// `span.start .. span.end` of `source`.
    ///
    /// The span must be a well-formed range into the source text; that is the
    /// caller's responsibility from construction on, and a violation is a
    /// fault, not a recoverable error.
    pub fn slice(&self) -> (r: &'source str)
        requires
            span_in_bounds(self.span, self.source),
        ensures
            r.spec_bytes() == self.source.spec_bytes().subrange(
                self.span.start as int,
                self.span.end as int,
            ),
    {
        str_slice_range(self.source, self.span.start, self.span.end)
    }

    /// The whole source text that the wrapped value was recognised in.
    pub fn source(&self) -> (r: &'source str)
        ensures
            r@ == self.source@,
    {
        self.source
    }
}

impl<'source, T, E> Sliced<'source, Result<T, E>> {
    /// Unzips a `Sliced<Result<T, E>>` into a `Result<Sliced<T>, Sliced<E>>`.
    ///
    /// A wrapped `Ok(t)` becomes `Ok` of `t` wrapped with the same span and
    /// source; a wrapped `Err(e)` becomes `Err` of `e` wrapped with the same
    /// span and source.
    pub fn unzip(self) -> (r: Result<Sliced<'source, T>, Sliced<'source, E>>)
        ensures
            match self.inner {
                Ok(t) => {
                    &&& r matches Ok(s)
                    &&& s.inner == t
                    &&& s.span == self.span
                    &&& s.source@ == self.source@
                },
                Err(e) => {
                    &&& r matches Err(s)
                    &&& s.inner == e
                    &&& s.span == self.span
                    &&& s.source@ == self.source@
                },
            },
    {
        match self.inner {
            Ok(t) => Ok(Sliced::new(t, self.span, self.source)),
            Err(e) => Err(Sliced::new(e, self.span, self.source)),
        }
    }
}

impl<'source, T> Sliced<'source, Option<T>> {
    /// Unzips a `Sliced<Option<T>>` into an `Option<Sliced<T>>`.
    ///
    /// A wrapped `Some(t)` becomes `Some` of `t` wrapped with the same span
    /// and source; a wrapped `None` becomes `None`.
    pub fn unzip(self) -> (r: Option<Sliced<'source, T>>)
        ensures
            match self.inner {
                Some(t) => {
                    &&& r matches Some(s)
                    &&& s.inner == t
                    &&& s.span == self.span
                    &&& s.source@ == self.source@
                },
                None => r is None,
            },
    {
        match self.inner {
            Some(t) => Some(Sliced::new(t, self.span, self.source)),
            None => None,
        }
    }
}

impl<'source, 'a, T> Sliced<'source, &'a T> {
    /// Maps a `Sliced<&T>` to a `Sliced<T>` by copying the referenced value.
    pub fn copied(self) -> (r: Sliced<'source, T>)
        where T: Copy,
        ensures
            r.inner == *self.inner,
            r.span == self.span,
            r.source@ == self.source@,
    {
        Sliced { inner: *self.inner, span: self.span, source: self.source }
    }

    /// Maps a `Sliced<&T>` to a `Sliced<T>` by cloning the referenced value.
    pub fn cloned(self) -> (r: Sliced<'source, T>)
        where T: Clone,
        ensures
            cloned::<T>(*self.inner, r.inner),
            r.span == self.span,
            r.source@ == self.source@,
    {
        Sliced { inner: self.inner.clone(), span: self.span, source: self.source }
    }
}

impl<'source, T: Clone> Clone for Sliced<'source, T> {
    /// Clones the wrapped value; the span and the source reference are copied.
    fn clone(&self) -> (r: Self)
        ensures
            cloned::<T>(self.inner, r.inner),
            r.span == self.span,
            r.source@ == self.source@,
    {
        Sliced {
            inner: self.inner.clone(),
            span: Span { start: self.span.start, end: self.span.end },
            source: self.source,
        }
    }
}

impl<'source, T> core::ops::Deref for Sliced<'source, T> {
    type Target = T;

    /// The wrapper stands in for the wrapped value: dereferencing yields it.
    fn deref(&self) -> (r: &T)
        ensures
            *r == self.inner,
    {
        &self.inner
    }
}

impl<'a, 'source, T> From<&'a Sliced<'source, T>> for Sliced<'source, &'a T> {
    /// Borrows the wrapped value into a new wrapper with the same span and
    /// source, without consuming the original.
    fn from(value: &'a Sliced<'source, T>) -> (r: Self) {
        Sliced {
            inner: &value.inner,
            span: Span { start: value.span.start, end: value.span.end },
            source: value.source,
        }
    }
}

impl<'a, 'source, T> vstd::std_specs::convert::FromSpecImpl<&'a Sliced<'source, T>> for Sliced<'source, &'a T> {
    open spec fn obeys_from_spec() -> bool {
        true
    }

    open spec fn from_spec(value: &'a Sliced<'source, T>) -> Self {
        Sliced { inner: &value.inner, span: value.span, source: value.source }
    }
}

impl<'source, T: PartialEq> PartialEq for Sliced<'source, T> {
    /// Two wrappers are equal iff the wrapped values, the spans, and the
    /// source texts are all equal.
    fn eq(&self, other: &Self) -> (r: bool) {
        self.inner == other.inner && self.span.start == other.span.start
            && self.span.end == other.span.end && str_eq(self.source, other.source)
    }
}

impl<'source, T: PartialEq> vstd::std_specs::cmp::PartialEqSpecImpl for Sliced<'source, T> {
    open spec fn obeys_eq_spec() -> bool {
        T::obeys_eq_spec()
    }

    open spec fn eq_spec(&self, other: &Self) -> bool {
        self.inner.eq_spec(&other.inner) && self.span == other.span && self.source@
            == other.source@
    }
}

/// Equality respects every field: wrappers whose spans or source texts
/// differ are never equal, whatever the wrapped values are.
pub proof fn lemma_sliced_eq_respects_span_and_source<'source, T: PartialEq>(
    a: Sliced<'source, T>,
    b: Sliced<'source, T>,
)
    requires
        a.span != b.span || a.source@ != b.source@,
    ensures
        !a.eq_spec(&b),
{
}

} // verus!
