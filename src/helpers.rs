//! Session classes and their policies, and the retry rule used when the
//! storage connection is established.
use vstd::prelude::*;

verus! {

/// The name of the session cookie of the browser class.
pub const SESSION_COOKIE_NAME: &'static str = "session";

/// The classes of client session, each stored in its own partition and
/// expiring after its own maximum age.
#[derive(Debug, Clone, Copy, PartialEq, Eq, Structural)]
pub enum SessType {
    Frontend,
    Roku,
    Display,
}

/// The maximum age of a class's session keys, in minutes.
pub open spec fn max_age_minutes(t: SessType) -> u32 {
    match t {
        SessType::Frontend => 7200,
        SessType::Roku => 525600,
        SessType::Display => 525600,
    }
}

/// The maximum age of a class's session keys, in seconds.
pub open spec fn max_age_seconds(t: SessType) -> i64 {
    (max_age_minutes(t) * 60) as i64
}

/// Whether a session key of class `t` created at `created` has outlived its
/// class's maximum age at `now` (both in seconds).
pub open spec fn is_expired(t: SessType, created: i64, now: i64) -> bool {
    now - created > max_age_seconds(t)
}

impl SessType {
    /// The maximum age of this class's session keys, in minutes: five days
    /// for the browser, a year for the devices.
    pub fn get_max_age(&self) -> (r: u32)
        ensures
            r == max_age_minutes(*self),
    {
        match *self {
            SessType::Frontend => 60 * 24 * 5,
            SessType::Roku => 60 * 24 * 365,
            SessType::Display => 60 * 24 * 365,
        }
    }

    /// The maximum age of this class's session keys, in seconds; the value
    /// of the cookie's `Max-Age`.
    pub fn max_age_secs(&self) -> (r: i64)
        ensures
            r == max_age_seconds(*self),
    {
        self.get_max_age() as i64 * 60
    }

    /// Whether a key of this class created at `created` has expired at `now`.
    pub fn expired(&self, created: i64, now: i64) -> (r: bool)
        ensures
            r == is_expired(*self, created, now),
    {
        (now as i128) - (created as i128) > self.max_age_secs() as i128
    }

    /// Whether keys of this class may be refreshed: only the device classes.
    pub fn may_refresh(&self) -> (r: bool)
        ensures
            r == (*self != SessType::Frontend),
    {
        match *self {
            SessType::Frontend => false,
            _ => true,
        }
    }
}

/// Why a retried operation gave up.
#[derive(Debug, Clone, Copy, PartialEq, Eq)]
pub enum RetryErr {
    RetriesExhausted,
}

/// Calls `func` up to `count` times until it succeeds, calling `pause`
/// between a failure and the next attempt. With no attempts left the
/// retries are exhausted.
pub fn retry_on_err<RETTYPE, ERRTYPE, PAUSE: Fn(), FUNC: Fn() -> Result<RETTYPE, ERRTYPE>>(
    count: u32,
    pause: PAUSE,
    func: FUNC,
) -> (r: Result<RETTYPE, RetryErr>)
    requires
        func.requires(()),
        pause.requires(()),
    ensures
        count == 0 ==> r == Err::<RETTYPE, RetryErr>(RetryErr::RetriesExhausted),
        r matches Ok(v) ==> func.ensures((), Ok::<RETTYPE, ERRTYPE>(v)),
        count > 0 && (forall|res: Result<RETTYPE, ERRTYPE>| #[trigger] func.ensures((), res) ==> res is Ok)
            ==> r is Ok,
        (forall|res: Result<RETTYPE, ERRTYPE>| #[trigger] func.ensures((), res) ==> res is Err) ==> r
            == Err::<RETTYPE, RetryErr>(RetryErr::RetriesExhausted),
    decreases count,
{
    if count == 0 {
        return Err(RetryErr::RetriesExhausted);
    }
    match func() {
        Ok(val) => Ok(val),
        Err(_) => {
            pause();
            retry_on_err(count - 1, pause, func)
        },
    }
}

} // verus!
