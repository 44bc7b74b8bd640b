use vstd::prelude::*;

verus! {

/// Where an adapter's records go: a handle to a native log object, tagged with
/// whether the adapter owns it.
///
/// The process-wide default log object is shared and only `Borrowed`; one made
/// for a subsystem and category belongs to its adapter and is `Owned`.
pub enum LogEndpoint<H> {
    Borrowed(H),
    Owned(H),
}

impl<H> LogEndpoint<H> {
    /// The native handle, whoever owns it.
    pub open spec fn handle_spec(&self) -> &H {
        match self {
            LogEndpoint::Borrowed(h) => h,
            LogEndpoint::Owned(h) => h,
        }
    }

    /// How many native resources tearing this endpoint down releases.
    pub open spec fn release_count(&self) -> nat {
        match self {
            LogEndpoint::Borrowed(_) => 0,
            LogEndpoint::Owned(_) => 1,
        }
    }

    /// The native handle to pass to the emit functions.
    pub fn handle(&self) -> (r: &H)
        ensures
            r == self.handle_spec(),
    {
        match self {
            LogEndpoint::Borrowed(h) => h,
            LogEndpoint::Owned(h) => h,
        }
    }

    /// True iff the endpoint belongs to its holder and must be released by it.
    pub fn is_owned(&self) -> (r: bool)
        ensures
            r == (self is Owned),
    {
        match self {
            LogEndpoint::Borrowed(_) => false,
            LogEndpoint::Owned(_) => true,
        }
    }

    /// Tears the endpoint down: yields the handle that its holder must release,
    /// which is the owned one, and nothing for a borrowed one.
    pub fn into_released(self) -> (r: Option<H>)
        ensures
            self is Owned ==> r == Some(*self.handle_spec()),
            self is Borrowed ==> r is None,
            (if r is Some { 1nat } else { 0nat }) == self.release_count(),
    {
        match self {
            LogEndpoint::Borrowed(_) => None,
            LogEndpoint::Owned(h) => Some(h),
        }
    }
}

} // verus!
