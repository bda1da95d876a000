//! A materializer that tells of each step under a tag before it hands the
//! step on to the one it wraps.

use vstd::prelude::*;

verus! {

/// Wraps a materializer and the tag under which its steps are logged.
#[derive(Clone, Debug)]
pub struct LoggingMaterializer<R> {
    tag: String,
    inner: R,
}

impl<R> LoggingMaterializer<R> {
    /// The tag.
    pub closed spec fn spec_tag(&self) -> String {
        self.tag
    }

    /// The wrapped materializer.
    pub closed spec fn spec_inner(&self) -> R {
        self.inner
    }

    /// Wraps `inner` under `tag`.
    pub fn new(inner: R, tag: String) -> (m: Self)
        ensures
            m.spec_inner() == inner,
            m.spec_tag() == tag,
    {
        LoggingMaterializer { inner, tag }
    }

    /// The tag under which the steps are logged.
    pub fn tag(&self) -> (t: &String)
        ensures
            *t == self.spec_tag(),
    {
        &self.tag
    }

    /// The wrapped materializer.
    pub fn inner(&self) -> (r: &R)
        ensures
            *r == self.spec_inner(),
    {
        &self.inner
    }

    /// The wrapped materializer, to hand a step on to it.
    pub fn inner_mut(&mut self) -> (r: &mut R)
        ensures
            *r == old(self).spec_inner(),
            final(self).spec_inner() == *final(r),
            final(self).spec_tag() == old(self).spec_tag(),
    {
        &mut self.inner
    }
}

} // verus!
