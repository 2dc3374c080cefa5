//! Guest registration: issuing a laboratory's registration code, spending it
//! to register, and the rate limit in front of registration.
use crate::errors::GuestRegistrationError;
use crate::numeric::{format_i64, int_text};
use vstd::prelude::*;

verus! {

/// How long a registration code stays valid, in minutes.
pub const REGISTRATION_CODE_TTL_MINUTES: i64 = 10;

/// How many fresh codes are tried before giving up on finding one not in use.
pub const REGISTRATION_CODE_GENERATION_ATTEMPTS: usize = 32;

pub open spec fn guest_outcome<T>(r: Result<T, GuestRegistrationError>) -> Result<T, (u16, Seq<char>)> {
    match r {
        Ok(v) => Ok(v),
        Err(e) => Err((e.spec_status_code(), e.spec_message())),
    }
}

/// Only those allowed to may issue a laboratory's registration code.
pub fn check_registration_code_permission(permitted: bool) -> (r: Result<(), GuestRegistrationError>)
    ensures
        permitted ==> r is Ok,
        !permitted ==> guest_outcome(r) == Err::<(), (u16, Seq<char>)>(
            (403, "You don't have permission to create a guest registration code."@),
        ),
{
    if !permitted {
        return Err(
            GuestRegistrationError::Forbidden(
                String::from_str("You don't have permission to create a guest registration code."),
            ),
        );
    }
    Ok(())
}

/// When a code issued at `now_seconds` and `now_subsec_nanos` past it
/// expires, in nanoseconds since the Unix epoch: the code's lifetime later.
pub open spec fn spec_registration_code_expires_at(now_seconds: i64, now_subsec_nanos: u32) -> int {
    now_seconds * 1_000_000_000 + now_subsec_nanos + REGISTRATION_CODE_TTL_MINUTES * 60 * 1_000_000_000
}

pub fn registration_code_expires_at(now_seconds: i64, now_subsec_nanos: u32) -> (expires_at_nanos: i128)
    ensures
        expires_at_nanos == spec_registration_code_expires_at(now_seconds, now_subsec_nanos),
{
    let now: i128 = now_seconds as i128 * 1_000_000_000 + now_subsec_nanos as i128;
    now + REGISTRATION_CODE_TTL_MINUTES as i128 * 60 * 1_000_000_000
}

/// When a code issued now, by the system clock, expires.
pub fn registration_code_expires_now() -> (expires_at_nanos: i128)
    ensures
        exists|now_seconds: i64, now_subsec_nanos: u32|
            expires_at_nanos == spec_registration_code_expires_at(now_seconds, now_subsec_nanos),
{
    let (seconds, nanos) = crate::uploads::clock_now();
    registration_code_expires_at(seconds, nanos)
}

/// A code can only be issued for a laboratory that exists (and is now
/// locked for the issuing).
pub fn check_laboratory_locked(found: bool) -> (r: Result<(), GuestRegistrationError>)
    ensures
        found ==> r is Ok,
        !found ==> guest_outcome(r) == Err::<(), (u16, Seq<char>)>((400, "Invalid laboratory"@)),
{
    if !found {
        return Err(GuestRegistrationError::ValidationError(String::from_str("Invalid laboratory")));
    }
    Ok(())
}

/// What to do after trying a fresh code: keep it, try another, or give up.
#[derive(Debug)]
pub enum CodeAttempt {
    Keep,
    TryAnother,
}

pub open spec fn spec_after_code_attempt(attempts_made: usize, inserted: bool) -> Result<CodeAttempt, (u16, Seq<char>)> {
    if inserted {
        Ok(CodeAttempt::Keep)
    } else if attempts_made < REGISTRATION_CODE_GENERATION_ATTEMPTS {
        Ok(CodeAttempt::TryAnother)
    } else {
        Err((500, "Failed to allocate a unique guest registration code"@))
    }
}

/// The decision after the `attempts_made`-th fresh code was tried: a code
/// that was stored is kept; one that collided with a live code is replaced
/// by another, until the attempts run out.
pub fn after_code_attempt(attempts_made: usize, inserted: bool) -> (r: Result<CodeAttempt, GuestRegistrationError>)
    ensures
        guest_outcome(r) == spec_after_code_attempt(attempts_made, inserted),
{
    if inserted {
        Ok(CodeAttempt::Keep)
    } else if attempts_made < REGISTRATION_CODE_GENERATION_ATTEMPTS {
        Ok(CodeAttempt::TryAnother)
    } else {
        Err(GuestRegistrationError::UnexpectedError(String::from_str("Failed to allocate a unique guest registration code")))
    }
}

/// Issuing stops after at most as many attempts as allowed: once that many
/// codes failed, the next decision is to give up.
pub proof fn code_attempts_are_bounded(attempts_made: usize)
    requires
        attempts_made >= REGISTRATION_CODE_GENERATION_ATTEMPTS,
    ensures
        spec_after_code_attempt(attempts_made, false) is Err,
{
}

/// A code that is unknown, spent or expired gets one answer.
pub fn check_registration_code_found(found: bool) -> (r: Result<(), GuestRegistrationError>)
    ensures
        found ==> r is Ok,
        !found ==> guest_outcome(r) == Err::<(), (u16, Seq<char>)>(
            (400, "Registration code is invalid or expired"@),
        ),
{
    if !found {
        return Err(GuestRegistrationError::ValidationError(String::from_str("Registration code is invalid or expired")));
    }
    Ok(())
}

/// What the rate limit in front of registration does with a request.
#[derive(Debug)]
pub enum RegistrationGate {
    /// The request goes on to registration.
    Pass,
    /// The request is refused with 429, telling the caller when to retry.
    TooManyRequests { retry_after: String, error: String },
    /// The request is refused with 503.
    Unavailable { error: String },
}

pub open spec fn gate_view(g: RegistrationGate) -> Option<(u16, Seq<char>, Seq<char>)> {
    match g {
        RegistrationGate::Pass => None,
        RegistrationGate::TooManyRequests { retry_after, error } => Some((429, error@, retry_after@)),
        RegistrationGate::Unavailable { error } => Some((503, error@, Seq::empty())),
    }
}

pub open spec fn spec_registration_gate(peer_known: bool, limiter_present: bool, check: Option<(bool, i64)>) -> Option<(u16, Seq<char>, Seq<char>)> {
    if !peer_known || !limiter_present {
        Some((503, "Guest registration is temporarily unavailable"@, Seq::empty()))
    } else {
        match check {
            None => Some((503, "Guest registration is temporarily unavailable"@, Seq::empty())),
            Some((allowed, retry_after)) => if allowed {
                None
            } else {
                Some((429, "Too many registration attempts"@, int_text(retry_after as int)))
            },
        }
    }
}

/// Registration is only served for a caller whose address is known, with the
/// rate limiter in place; `check` is the limiter's verdict on the address
/// (whether it is allowed, and the seconds until it may retry), `None` where
/// the limiter failed.
pub fn registration_gate(peer_known: bool, limiter_present: bool, check: Option<(bool, i64)>) -> (g: RegistrationGate)
    ensures
        gate_view(g) == spec_registration_gate(peer_known, limiter_present, check),
{
    if !peer_known || !limiter_present {
        return RegistrationGate::Unavailable { error: String::from_str("Guest registration is temporarily unavailable") };
    }
    match check {
        None => RegistrationGate::Unavailable { error: String::from_str("Guest registration is temporarily unavailable") },
        Some((allowed, retry_after)) => {
            if allowed {
                RegistrationGate::Pass
            } else {
                RegistrationGate::TooManyRequests {
                    retry_after: format_i64(retry_after),
                    error: String::from_str("Too many registration attempts"),
                }
            }
        },
    }
}

/// Registration fails closed: a request passes the rate limit only when
/// its address is known, the limiter is in place and answered, and allowed
/// it; one it refused is told when to retry; anything else is answered as
/// unavailable.
pub proof fn registration_fails_closed(peer_known: bool, limiter_present: bool, check: Option<(bool, i64)>)
    ensures
        spec_registration_gate(peer_known, limiter_present, check) is None <==> (peer_known
            && limiter_present && check == Some((true, check->Some_0.1))),
        peer_known && limiter_present && check is Some && !check->Some_0.0 ==> spec_registration_gate(
            peer_known,
            limiter_present,
            check,
        ) == Some((429u16, "Too many registration attempts"@, int_text(check->Some_0.1 as int))),
        (!peer_known || !limiter_present || check is None) ==> spec_registration_gate(
            peer_known,
            limiter_present,
            check,
        ) is Some && spec_registration_gate(peer_known, limiter_present, check)->Some_0.0 == 503,
{
}

/// Issuing a code keeps the first code that was stored, and otherwise tries
/// another only while attempts remain.
pub proof fn code_attempts_keep_the_first_stored(attempts_made: usize, inserted: bool)
    ensures
        inserted ==> spec_after_code_attempt(attempts_made, inserted) matches Ok(CodeAttempt::Keep),
        !inserted && attempts_made < REGISTRATION_CODE_GENERATION_ATTEMPTS ==> spec_after_code_attempt(
            attempts_made,
            inserted,
        ) matches Ok(CodeAttempt::TryAnother),
{
}

/// A code expires ten minutes after it is issued, to the nanosecond.
pub proof fn registration_codes_live_ten_minutes(now_seconds: i64, now_subsec_nanos: u32)
    ensures
        spec_registration_code_expires_at(now_seconds, now_subsec_nanos) - (now_seconds * 1_000_000_000
            + now_subsec_nanos) == 600_000_000_000,
{
}

} // verus!
