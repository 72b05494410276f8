//! The verdict of one check, and the arithmetic that produces it.

use vstd::prelude::*;

use crate::names::alternative_names;
use crate::names::alternative_names_of;

verus! {

/// Seconds in one day.
pub const SECONDS_PER_DAY: i64 = 86_400;

/// A certificate with no more whole days left than this expires soon.
pub const WARNING_DAYS: i64 = 7;

/// The quotient of `a` by a positive `b`, rounded toward zero.
pub open spec fn div_toward_zero(a: int, b: int) -> int
    recommends
        b > 0,
{
    if a >= 0 {
        a / b
    } else {
        -((-a) / b)
    }
}

/// The span from one instant to another, split into whole days and left-over
/// seconds. Each part carries its own sign.
#[derive(Clone, Copy, Debug, PartialEq, Eq, Structural)]
pub struct TimeDelta {
    pub days: i32,
    pub secs: i32,
}

impl TimeDelta {
    /// The span as one signed count of seconds.
    pub open spec fn spec_total_seconds(self) -> int {
        self.days * SECONDS_PER_DAY + self.secs
    }

    /// The span as one signed count of seconds.
    pub fn total_seconds(self) -> (total: i64)
        ensures
            total == self.spec_total_seconds(),
    {
        let days: i64 = self.days as i64;
        let secs: i64 = self.secs as i64;
        days * SECONDS_PER_DAY + secs
    }
}

/// How urgent a verdict is.
#[derive(Clone, Copy, Debug, PartialEq, Eq, Structural)]
pub enum Status {
    /// `notAfter` has passed.
    Expired,
    /// Not expired, with at most `WARNING_DAYS` whole days left.
    ExpiresSoon,
    /// Not expired, with more than `WARNING_DAYS` whole days left.
    Healthy,
}

/// What a verdict says, as mathematics.
pub struct ExpirationView {
    /// Seconds from the evaluation until `notAfter`; negative once it has
    /// passed.
    pub remaining_seconds: int,
    /// The DNS names among the subject alternative names, in the order of
    /// the certificate.
    pub alternative_names: Seq<Seq<char>>,
}

impl ExpirationView {
    /// Whether `notAfter` has passed: a verdict with no second left, and none
    /// owed, is not expired.
    pub open spec fn is_expired(self) -> bool {
        self.remaining_seconds < 0
    }

    /// The remaining whole days, rounded toward zero.
    pub open spec fn remaining_days(self) -> int {
        div_toward_zero(self.remaining_seconds, SECONDS_PER_DAY as int)
    }

    /// How urgent the verdict is.
    pub open spec fn status(self) -> Status {
        if self.is_expired() {
            Status::Expired
        } else if self.remaining_days() <= WARNING_DAYS {
            Status::ExpiresSoon
        } else {
            Status::Healthy
        }
    }
}

/// The verdict of one check. It is made once, from one reading of the clock,
/// and never changes afterwards.
#[derive(Debug)]
pub struct SslExpiration {
    secs: i64,
    alt_names: Vec<String>,
}

impl View for SslExpiration {
    type V = ExpirationView;

    closed spec fn view(&self) -> ExpirationView {
        ExpirationView {
            remaining_seconds: self.secs as int,
            alternative_names: self.alt_names.deep_view(),
        }
    }
}

/// The verdict on a certificate whose subject-alternative-name extension is
/// `extension` and whose `notAfter` lies `remaining` after the evaluation.
pub open spec fn verdict(
    extension: Option<Seq<Option<Seq<char>>>>,
    remaining: TimeDelta,
) -> ExpirationView {
    ExpirationView {
        remaining_seconds: remaining.spec_total_seconds(),
        alternative_names: alternative_names_of(extension),
    }
}

impl SslExpiration {
    /// Evaluates what was read from a certificate: `extension` is its
    /// subject-alternative-name extension, if it has one, each entry its DNS
    /// name or `None` for an entry of another type; `remaining` is the span
    /// from now to its `notAfter`.
    pub fn evaluate(
        extension: &Option<Vec<Option<String>>>,
        remaining: TimeDelta,
    ) -> (expiration: SslExpiration)
        ensures
            expiration@ == verdict(extension.deep_view(), remaining),
    {
        SslExpiration { secs: remaining.total_seconds(), alt_names: alternative_names(extension) }
    }

    /// How many seconds until the certificate expires; negative if it has
    /// expired already.
    pub fn secs(&self) -> (secs: i64)
        ensures
            secs == self@.remaining_seconds,
    {
        self.secs
    }

    /// How many whole days until the certificate expires, rounded toward
    /// zero; negative if it expired a day ago or more.
    pub fn days(&self) -> (days: i64)
        ensures
            days == self@.remaining_days(),
    {
        self.secs / SECONDS_PER_DAY
    }

    /// Whether the certificate has expired. At the very second of `notAfter`
    /// it has not.
    pub fn is_expired(&self) -> (expired: bool)
        ensures
            expired == self@.is_expired(),
    {
        self.secs < 0
    }

    /// How urgent the verdict is: expired, about to expire, or neither.
    pub fn status(&self) -> (status: Status)
        ensures
            status == self@.status(),
    {
        if self.is_expired() {
            Status::Expired
        } else if self.days() <= WARNING_DAYS {
            Status::ExpiresSoon
        } else {
            Status::Healthy
        }
    }

    /// The DNS names among the certificate's subject alternative names, in the
    /// order of the certificate.
    pub fn get_alt_names(&self) -> (names: &Vec<String>)
        ensures
            names.deep_view() == self@.alternative_names,
    {
        &self.alt_names
    }
}

/// A certificate whose `notAfter` lies in the past is expired, and its
/// remaining seconds are negative. The past is told by the seconds of the
/// span, all told: its parts may be of unlike sign. And only such a
/// certificate is expired.
pub proof fn lemma_past_not_after_is_expired(
    extension: Option<Seq<Option<Seq<char>>>>,
    remaining: TimeDelta,
)
    ensures
        remaining.spec_total_seconds() < 0 <==> verdict(extension, remaining).is_expired(),
        remaining.spec_total_seconds() < 0 <==> verdict(extension, remaining).remaining_seconds
            < 0,
{
}

/// A certificate whose `notAfter` is the very instant of the evaluation has
/// zero seconds left, which is not expired.
pub proof fn lemma_not_after_now_is_not_expired(
    extension: Option<Seq<Option<Seq<char>>>>,
    remaining: TimeDelta,
)
    requires
        remaining.spec_total_seconds() == 0,
    ensures
        !verdict(extension, remaining).is_expired(),
        verdict(extension, remaining).remaining_seconds == 0,
{
}

/// Where no part of a span is against the other in sign, the span lies in the
/// past exactly if some part is negative, and is empty exactly if both are
/// zero.
pub proof fn lemma_sign_of_like_parts(remaining: TimeDelta)
    requires
        !(remaining.days > 0 && remaining.secs < 0),
        !(remaining.days < 0 && remaining.secs > 0),
    ensures
        remaining.spec_total_seconds() < 0 <==> remaining.days < 0 || remaining.secs < 0,
        remaining.spec_total_seconds() == 0 <==> remaining.days == 0 && remaining.secs == 0,
{
}

/// The days are the seconds divided by 86 400 and rounded toward zero, on
/// either side of zero: their sign is never against that of the seconds, what
/// the division drops is less than a day, and the days of a span and of its
/// opposite are opposite.
pub proof fn lemma_days_round_toward_zero(one: ExpirationView, opposite: ExpirationView)
    requires
        opposite.remaining_seconds == -one.remaining_seconds,
    ensures
        one.remaining_seconds >= 0 ==> {
            &&& one.remaining_days() >= 0
            &&& one.remaining_days() * 86_400 <= one.remaining_seconds
            &&& one.remaining_seconds < one.remaining_days() * 86_400 + 86_400
        },
        one.remaining_seconds <= 0 ==> {
            &&& one.remaining_days() <= 0
            &&& one.remaining_seconds <= one.remaining_days() * 86_400
            &&& one.remaining_days() * 86_400 - 86_400 < one.remaining_seconds
        },
        opposite.remaining_days() == -one.remaining_days(),
{
}

} // verus!
