//! The segment handle: where the segment is, whether it is open or
//! abandoned, and its last provider error text.
//!
//! The handle is the bookkeeping core of the attach/release lifecycle.  The
//! thin provider layer performs the actual attach and reports its result
//! code, error text and resolved name; the handle records the outcome and
//! guarantees the lifecycle invariants: a handle is open until closed,
//! closing is idempotent, and the final release happens exactly once.

use vstd::prelude::*;

verus! {

/// Where the shared-memory segment lives, and in what state.
#[derive(Debug)]
pub enum VsmType {
    /// A producer instance is running under this name.
    Active(String),
    /// A frozen segment file left behind by a departed producer.
    Stale(String),
    /// The well-known default location.
    Default,
}

/// The handle to an attached segment.  Point-in-time state as last reported
/// by the provider, plus the lifecycle flags this core enforces.
#[derive(Debug)]
pub struct VsmData {
    location: VsmType,
    name: String,
    open: bool,
    abandoned: bool,
    err: Option<String>,
    released: bool,
}

/// The error text a handle reports: the provider's message when there is
/// one, a fixed phrase otherwise.
pub open spec fn spec_error_text(e: Option<Seq<char>>) -> Seq<char> {
    match e {
        Some(s) => s,
        None => "No error"@,
    }
}

impl VsmData {
    /// The location descriptor the handle was attached through.
    pub closed spec fn spec_location(&self) -> VsmType {
        self.location
    }

    /// The resolved location string of the attached segment.
    pub closed spec fn spec_name(&self) -> Seq<char> {
        self.name@
    }

    /// Whether the handle is attached and usable.
    pub closed spec fn spec_open(&self) -> bool {
        self.open
    }

    /// Whether the producer released ownership while readers remain.
    pub closed spec fn spec_abandoned(&self) -> bool {
        self.abandoned
    }

    /// The provider's last error text, if any.
    pub closed spec fn spec_err(&self) -> Option<Seq<char>> {
        match self.err {
            Some(s) => Some(s@),
            None => None,
        }
    }

    /// Whether the underlying handle was torn down for good.
    pub closed spec fn spec_released(&self) -> bool {
        self.released
    }

    /// A released handle is no longer open.
    pub closed spec fn wf(&self) -> bool {
        self.released ==> !self.open
    }

    /// Record the outcome of an attach: the provider's result code, its
    /// error text, and the location string it resolved.  A zero code is
    /// success and yields an open handle; any other code yields the
    /// provider's message, and the provider's error state is considered
    /// reset so the caller may retry with different parameters.
    pub fn new(t: VsmType, open_code: i32, provider_err: Option<String>, resolved_name: String)
        -> (r: Result<VsmData, String>)
        ensures
            r is Ok <==> open_code == 0,
            r is Ok ==> {
                &&& r->Ok_0.spec_location() == t
                &&& r->Ok_0.spec_name() == resolved_name@
                &&& r->Ok_0.spec_open()
                &&& !r->Ok_0.spec_abandoned()
                &&& r->Ok_0.spec_err() is None
                &&& !r->Ok_0.spec_released()
                &&& r->Ok_0.wf()
            },
            r is Err ==> r->Err_0@ == spec_error_text(
                match provider_err {
                    Some(s) => Some(s@),
                    None => None,
                },
            ),
    {
        if open_code == 0 {
            Ok(
                VsmData {
                    location: t,
                    name: resolved_name,
                    open: true,
                    abandoned: false,
                    err: None,
                    released: false,
                },
            )
        } else {
            Err(error_text(provider_err))
        }
    }

    /// The handle's current error text; a fixed phrase when the provider
    /// reported none.
    pub fn error(&self) -> (r: String)
        ensures
            r@ == spec_error_text(self.spec_err()),
    {
        match &self.err {
            Some(s) => s.clone(),
            None => String::from_str("No error"),
        }
    }

    /// Record a provider error message on the handle.
    pub fn set_error(&mut self, message: String)
        ensures
            final(self).spec_err() == Some(message@),
            final(self).spec_name() == old(self).spec_name(),
            final(self).spec_open() == old(self).spec_open(),
            final(self).spec_abandoned() == old(self).spec_abandoned(),
            final(self).spec_released() == old(self).spec_released(),
    {
        self.err = Some(message);
    }

    /// Clear the handle's error state, so a later attempt starts clean.
    pub fn reset_error(&mut self)
        ensures
            final(self).spec_err() is None,
            final(self).spec_name() == old(self).spec_name(),
            final(self).spec_open() == old(self).spec_open(),
            final(self).spec_abandoned() == old(self).spec_abandoned(),
            final(self).spec_released() == old(self).spec_released(),
    {
        self.err = None;
    }

    /// The resolved location string of the attached segment.
    pub fn name(&self) -> (r: String)
        ensures
            r@ == self.spec_name(),
    {
        self.name.clone()
    }

    /// Whether the handle is open, at this instant.
    pub fn is_open(&self) -> (r: bool)
        ensures
            r == self.spec_open(),
    {
        self.open
    }

    /// Whether the producer abandoned the segment, as last reported.
    pub fn is_abandoned(&self) -> (r: bool)
        ensures
            r == self.spec_abandoned(),
    {
        self.abandoned
    }

    /// Whether the handle went through its final teardown.
    pub fn is_released(&self) -> (r: bool)
        ensures
            r == self.spec_released(),
    {
        self.released
    }

    /// Record the abandonment state the provider reports: the producer may
    /// release ownership while consumers still read.
    pub fn set_abandoned(&mut self, flag: bool)
        ensures
            final(self).spec_abandoned() == flag,
            final(self).spec_name() == old(self).spec_name(),
            final(self).spec_open() == old(self).spec_open(),
            final(self).spec_err() == old(self).spec_err(),
            final(self).spec_released() == old(self).spec_released(),
    {
        self.abandoned = flag;
    }

    /// Explicit release: the handle stops being open, and every view
    /// derived from it loses its validity.  Idempotent; the final teardown
    /// is [`VsmData::release`].
    pub fn close(&mut self)
        ensures
            !final(self).spec_open(),
            final(self).spec_name() == old(self).spec_name(),
            final(self).spec_abandoned() == old(self).spec_abandoned(),
            final(self).spec_err() == old(self).spec_err(),
            final(self).spec_released() == old(self).spec_released(),
            old(self).wf() ==> final(self).wf(),
    {
        self.open = false;
    }

    /// Final teardown, exactly once: a handle can never be released twice,
    /// and a released handle is closed.
    pub fn release(&mut self)
        requires
            !old(self).spec_released(),
        ensures
            final(self).spec_released(),
            !final(self).spec_open(),
            final(self).wf(),
            final(self).spec_name() == old(self).spec_name(),
            final(self).spec_abandoned() == old(self).spec_abandoned(),
            final(self).spec_err() == old(self).spec_err(),
    {
        self.open = false;
        self.released = true;
    }
}

/// The error text for a provider message: the message itself when there is
/// one, a fixed phrase otherwise.
pub fn error_text(e: Option<String>) -> (r: String)
    ensures
        r@ == spec_error_text(
            match e {
                Some(s) => Some(s@),
                None => None,
            },
        ),
{
    match e {
        Some(s) => s,
        None => String::from_str("No error"),
    }
}

} // verus!
