use vstd::prelude::*;

use crate::error::Error;
use crate::error::ErrorKind;
use crate::error::status_to_result;

verus! {

/// The process-wide state of the binding.
///
/// The native core supports exactly one live instance per process, so the
/// binding guards creation with an exclusivity token.  This type is the
/// model of that token together with the single logical execution-hook
/// slot of the live instance; the FFI shell holds one value of it and
/// routes every lifecycle decision through its methods, so that the
/// decisions themselves are verified while the native calls around them
/// are not.
///
/// Creation happens in two steps.  `begin_create` decides whether a new
/// instance may be attempted at all — it is a try-acquire: it never
/// blocks, it fails immediately while another instance is live.
/// `finish_create` then records the verdict of the native initialization;
/// only a successful verdict makes the instance live.
pub struct Lifecycle {
    live: bool,
    hook: bool,
}

impl Lifecycle {
    /// Whether an instance is currently live.
    pub closed spec fn is_live(self) -> bool {
        self.live
    }

    /// Whether an execution hook occupies the hook slot.
    pub closed spec fn has_hook(self) -> bool {
        self.hook
    }

    /// The state in which a creation that the native core accepted leaves
    /// the process.
    pub closed spec fn spec_after_create(self) -> Lifecycle {
        Lifecycle { live: true, hook: self.hook }
    }

    /// The state in which destroying the instance leaves the process.
    pub closed spec fn spec_after_destroy(self) -> Lifecycle {
        Lifecycle { live: false, hook: false }
    }

    /// Whether a new instance may be created in this state.
    pub open spec fn spec_create_allowed(self) -> bool {
        !self.is_live()
    }

    /// The initial state of a process: no instance live, no hook installed.
    pub fn new() -> (lc: Lifecycle)
        ensures
            !lc.is_live(),
            !lc.has_hook(),
    {
        Lifecycle { live: false, hook: false }
    }

    /// Reports whether an instance is currently live.
    pub fn was_init(&self) -> (b: bool)
        ensures
            b == self.is_live(),
    {
        self.live
    }

    /// Reports whether an execution hook occupies the hook slot.
    pub fn hook_installed(&self) -> (b: bool)
        ensures
            b == self.has_hook(),
    {
        self.hook
    }

    /// Decides whether a new instance may be created: the try-acquire on
    /// the exclusivity token.  While an instance is live the answer is
    /// always `AlreadyActive`; the caller must destroy that instance
    /// first, the request is never queued.
    pub fn begin_create(&self) -> (r: Result<(), Error>)
        ensures
            r is Ok <==> self.spec_create_allowed(),
            r matches Err(e) ==> e.spec_kind() == ErrorKind::AlreadyActive,
    {
        if self.live {
            Err(Error::new(ErrorKind::AlreadyActive))
        } else {
            Ok(())
        }
    }

    /// Records the verdict of the native initialization, given as the
    /// status code of the native call (zero means failure).  On success
    /// the instance becomes live and the exclusivity token is held; on
    /// failure the state is unchanged and the result is `InitFailed`.
    pub fn finish_create(&mut self, status: i32) -> (r: Result<(), Error>)
        requires
            old(self).spec_create_allowed(),
        ensures
            r is Ok <==> status != 0,
            r matches Err(e) ==> e.spec_kind() == ErrorKind::InitFailed,
            status != 0 ==> *final(self) == old(self).spec_after_create(),
            status == 0 ==> *final(self) == *old(self),
            final(self).is_live() <==> status != 0,
            final(self).has_hook() == old(self).has_hook(),
    {
        let r = status_to_result(status, ErrorKind::InitFailed);
        if r.is_ok() {
            self.live = true;
        }
        r
    }

    /// Destroys the live instance: the hook slot is cleared and the
    /// exclusivity token is released, exactly once, whatever state the
    /// process was in.
    pub fn destroy(&mut self)
        ensures
            *final(self) == old(self).spec_after_destroy(),
            !final(self).is_live(),
            !final(self).has_hook(),
    {
        self.live = false;
        self.hook = false;
    }

    /// Occupies the single hook slot; installing over an occupied slot
    /// replaces the previous hook.
    pub fn install_hook(&mut self)
        requires
            old(self).is_live(),
        ensures
            final(self).is_live(),
            final(self).has_hook(),
    {
        self.hook = true;
    }

    /// Empties the hook slot.
    pub fn remove_hook(&mut self)
        requires
            old(self).is_live(),
        ensures
            final(self).is_live(),
            !final(self).has_hook(),
    {
        self.hook = false;
    }
}

/// At most one instance is live at a time: from any state, once a creation
/// has succeeded, a second creation is refused until the instance is
/// destroyed.
pub proof fn lemma_second_create_refused(lc: Lifecycle)
    ensures
        !lc.spec_after_create().spec_create_allowed(),
{
}

/// Destroying an instance releases the exclusivity token: from any state,
/// after a destroy a new creation is allowed.
pub proof fn lemma_create_after_destroy(lc: Lifecycle)
    ensures
        lc.spec_after_destroy().spec_create_allowed(),
{
}

} // verus!
