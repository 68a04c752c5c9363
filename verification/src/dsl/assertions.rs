//! The assertion evaluators: the synchronous single-shot `Expect` and the
//! polling `Async` engine.
//!
//! The polling engine owns a zero-argument, repeatedly invocable operation,
//! a total timeout, and a fixed polling interval. Under `Eventual` mode it
//! succeeds as soon as one poll matches and fails once the timeout elapses;
//! under `Consistent` mode it fails as soon as one poll mismatches and
//! succeeds once the timeout elapses. After the timeout, one terminal
//! evaluation is always made, even if the poll loop never ran.

use crate::dsl::{Assertion, Matcher};
use vstd::prelude::*;

verus! {

/// The default delay between successive polls, in milliseconds.
pub const DEFAULT_POLLING_INTERVAL_MS: u64 = 10;

/// Declares `std::time::Instant`, the monotonic clock's reading, for use in
/// signatures; the value itself is opaque here.
#[verifier::external_type_specification]
#[verifier::external_body]
pub struct ExInstant(std::time::Instant);

/// Relies on std::time::Instant::now for a reading of the monotonic clock.
#[verifier::external_body]
fn monotonic_now() -> std::time::Instant {
    std::time::Instant::now()
}

/// Relies on std::time::Instant::elapsed for the time passed since `start`.
#[verifier::external_body]
fn instant_elapsed(start: &std::time::Instant) -> std::time::Duration {
    start.elapsed()
}

/// Relies on std::time::Duration::as_millis for a duration in whole
/// milliseconds.
#[verifier::external_body]
fn duration_as_millis(d: &std::time::Duration) -> u128 {
    d.as_millis()
}

/// Relies on std::hint::spin_loop for the processor hint while busy-waiting.
#[verifier::external_body]
fn cpu_relax() {
    std::hint::spin_loop()
}

/// Whole milliseconds read from the monotonic clock since `start`, saturated
/// to `u64`. The reading is whatever the clock reports: nothing is assumed
/// about it.
fn elapsed_millis(start: &std::time::Instant) -> u64 {
    let ms = duration_as_millis(&instant_elapsed(start));
    if ms > u64::MAX as u128 {
        u64::MAX
    } else {
        ms as u64
    }
}

/// Blocks the calling thread for `ms` milliseconds by waiting on the
/// monotonic clock.
fn sleep_millis(ms: u64) {
    let start = monotonic_now();
    // The budget bounds the wait should the clock stop advancing.
    let mut budget: u64 = u64::MAX;
    loop
        decreases budget,
    {
        if budget == 0 || elapsed_millis(&start) >= ms {
            break;
        }
        budget = budget - 1;
        cpu_relax();
    }
}

/// Simple synchronous expectation over a borrowed actual value.
pub struct Expect<'a, A> {
    actual: &'a A,
}

impl<'a, A> Expect<'a, A> {
    /// The value this expectation asserts about.
    pub closed spec fn spec_actual(&self) -> A {
        *self.actual
    }

    /// Builds an expectation around the actual value.
    pub fn new(actual: &'a A) -> (r: Expect<'a, A>)
        ensures
            r.spec_actual() == *actual,
    {
        Expect { actual }
    }
}

impl<'a, A> Assertion<A> for Expect<'a, A> {
    open spec fn assert_pre(&self) -> bool {
        true
    }

    open spec fn to_post(
        &self,
        matches_p: spec_fn(A) -> bool,
        shape_p: spec_fn(A, Seq<char>) -> bool,
        obeys: bool,
        r: Result<(), String>,
    ) -> bool {
        &&& (obeys ==> (r is Ok <==> matches_p(self.spec_actual())))
        &&& (r matches Err(msg) ==> shape_p(self.spec_actual(), msg@))
    }

    open spec fn not_to_post(
        &self,
        matches_p: spec_fn(A) -> bool,
        shape_p: spec_fn(A, Seq<char>) -> bool,
        obeys: bool,
        r: Result<(), String>,
    ) -> bool {
        &&& (obeys ==> (r is Ok <==> !matches_p(self.spec_actual())))
        &&& (r matches Err(msg) ==> shape_p(self.spec_actual(), msg@))
    }

    fn to<M: Matcher<A>>(self, matcher: M) -> (r: Result<(), String>) {
        if !matcher.matches(self.actual) {
            Err(matcher.failure_message(self.actual))
        } else {
            Ok(())
        }
    }

    fn not_to<M: Matcher<A>>(self, matcher: M) -> (r: Result<(), String>) {
        if matcher.matches(self.actual) {
            Err(matcher.negated_failure_message(self.actual))
        } else {
            Ok(())
        }
    }
}

/// The temporal mode of a polling assertion.
#[derive(Clone, Debug, Copy)]
pub enum AsyncType {
    /// Succeed as soon as one poll matches; fail once the timeout elapses.
    Eventual,
    /// Fail as soon as one poll mismatches; succeed once the timeout elapses.
    Consistent,
}

/// Polling assertion over a repeatedly invocable operation.
pub struct Async<A, F> {
    func: F,
    timeout_ms: u64,
    polling_interval_ms: u64,
    async_type: AsyncType,
    marker: core::marker::PhantomData<A>,
}

impl<A, F: Fn() -> A> Async<A, F> {
    /// The temporal mode this assertion polls under.
    pub closed spec fn spec_mode(&self) -> AsyncType {
        self.async_type
    }

    /// The total timeout budget, in milliseconds.
    pub closed spec fn spec_timeout_ms(&self) -> u64 {
        self.timeout_ms
    }

    /// The delay between successive polls, in milliseconds.
    pub closed spec fn spec_interval_ms(&self) -> u64 {
        self.polling_interval_ms
    }

    /// The operation this assertion samples.
    pub closed spec fn spec_op(&self) -> F {
        self.func
    }

    /// Builds a polling assertion with the given mode and timeout around the
    /// operation `f`, polling at the default interval.
    pub fn new(async_type: AsyncType, timeout_ms: u64, f: F) -> (r: Async<A, F>)
        ensures
            r.spec_mode() == async_type,
            r.spec_timeout_ms() == timeout_ms,
            r.spec_interval_ms() == DEFAULT_POLLING_INTERVAL_MS,
            r.spec_op() == f,
    {
        Async {
            func: f,
            timeout_ms,
            polling_interval_ms: DEFAULT_POLLING_INTERVAL_MS,
            async_type,
            marker: core::marker::PhantomData,
        }
    }

    /// The per-poll decision for a positive assertion. `Ok(true)` stops the
    /// poll loop as a success, `Ok(false)` keeps polling, and `Err` stops it
    /// as a failure carrying the matcher's failure message.
    pub fn check_match<M: Matcher<A>>(&self, matcher: &M, actual: A) -> (r: Result<bool, String>)
        ensures
            self.spec_mode() is Eventual ==> (r matches Ok(b) && (matcher.obeys_match_spec()
                ==> b == matcher.spec_matches(&actual))),
            self.spec_mode() is Consistent ==> match r {
                Result::Ok(b) => !b && (matcher.obeys_match_spec()
                    ==> matcher.spec_matches(&actual)),
                Result::Err(msg) => matcher.failure_message_shape(&actual, msg@) && (
                matcher.obeys_match_spec() ==> !matcher.spec_matches(&actual)),
            },
    {
        match self.async_type {
            AsyncType::Eventual => {
                if matcher.matches(&actual) {
                    Ok(true)
                } else {
                    Ok(false)
                }
            },
            AsyncType::Consistent => {
                if matcher.matches(&actual) {
                    Ok(false)
                } else {
                    Err(matcher.failure_message(&actual))
                }
            },
        }
    }

    /// The per-poll decision for a negative assertion: the mirror image of
    /// `check_match`, with the matcher's predicate negated and the negated
    /// failure message.
    pub fn check_negated_match<M: Matcher<A>>(
        &self,
        matcher: &M,
        actual: A,
    ) -> (r: Result<bool, String>)
        ensures
            self.spec_mode() is Eventual ==> (r matches Ok(b) && (matcher.obeys_match_spec()
                ==> b == !matcher.spec_matches(&actual))),
            self.spec_mode() is Consistent ==> match r {
                Result::Ok(b) => !b && (matcher.obeys_match_spec()
                    ==> !matcher.spec_matches(&actual)),
                Result::Err(msg) => matcher.negated_failure_message_shape(&actual, msg@) && (
                matcher.obeys_match_spec() ==> matcher.spec_matches(&actual)),
            },
    {
        match self.async_type {
            AsyncType::Eventual => {
                if !matcher.matches(&actual) {
                    Ok(true)
                } else {
                    Ok(false)
                }
            },
            AsyncType::Consistent => {
                if !matcher.matches(&actual) {
                    Ok(false)
                } else {
                    Err(matcher.negated_failure_message(&actual))
                }
            },
        }
    }

    /// The terminal decision for a positive assertion, applied to one final
    /// sample once the timeout has elapsed: an `Eventual` assertion that
    /// reaches the deadline has never matched and fails with the failure
    /// message for that sample; a `Consistent` assertion that reaches the
    /// deadline has never mismatched and succeeds.
    pub fn check_at_end<M: Matcher<A>>(&self, matcher: &M, actual: A) -> (r: Result<(), String>)
        ensures
            self.spec_mode() is Consistent ==> r is Ok,
            self.spec_mode() is Eventual ==> (r matches Err(msg)
                && matcher.failure_message_shape(&actual, msg@)),
    {
        match self.async_type {
            AsyncType::Eventual => Err(matcher.failure_message(&actual)),
            AsyncType::Consistent => Ok(()),
        }
    }

    /// The terminal decision for a negative assertion: the mirror image of
    /// `check_at_end`, with the negated failure message.
    pub fn check_negated_at_end<M: Matcher<A>>(
        &self,
        matcher: &M,
        actual: A,
    ) -> (r: Result<(), String>)
        ensures
            self.spec_mode() is Consistent ==> r is Ok,
            self.spec_mode() is Eventual ==> (r matches Err(msg)
                && matcher.negated_failure_message_shape(&actual, msg@)),
    {
        match self.async_type {
            AsyncType::Eventual => Err(matcher.negated_failure_message(&actual)),
            AsyncType::Consistent => Ok(()),
        }
    }
}

/// What `Async::to` guarantees: the operation was sampled at least once;
/// every failure message was produced for a value the operation actually
/// returned (and, in `Consistent` mode, one the matcher rejected); an
/// `Eventual` success observed a matching value; a `Consistent` assertion
/// over an operation whose every possible value matches cannot fail; and an
/// `Eventual` assertion over an operation whose no possible value matches
/// cannot succeed.
pub open spec fn async_to_post<A, F: Fn() -> A>(
    a: &Async<A, F>,
    matches_p: spec_fn(A) -> bool,
    shape_p: spec_fn(A, Seq<char>) -> bool,
    obeys: bool,
    r: Result<(), String>,
) -> bool {
    &&& (r is Ok ==> exists|v: A| #[trigger] call_ensures(a.spec_op(), (), v))
    &&& (r matches Err(msg) ==> exists|v: A|
        #[trigger] call_ensures(a.spec_op(), (), v) && shape_p(v, msg@) && (obeys
            && a.spec_mode() is Consistent ==> !matches_p(v)))
    &&& (obeys && a.spec_mode() is Eventual && r is Ok ==> exists|v: A|
        #[trigger] call_ensures(a.spec_op(), (), v) && matches_p(v))
    &&& (obeys && a.spec_mode() is Consistent && (forall|v: A|
        #[trigger] call_ensures(a.spec_op(), (), v) ==> matches_p(v)) ==> r is Ok)
    &&& (obeys && a.spec_mode() is Eventual && (forall|v: A|
        #[trigger] call_ensures(a.spec_op(), (), v) ==> !matches_p(v)) ==> r is Err)
}

/// What `Async::not_to` guarantees: the mirror image of `async_to_post`,
/// with the matcher's predicate negated.
pub open spec fn async_not_to_post<A, F: Fn() -> A>(
    a: &Async<A, F>,
    matches_p: spec_fn(A) -> bool,
    shape_p: spec_fn(A, Seq<char>) -> bool,
    obeys: bool,
    r: Result<(), String>,
) -> bool {
    &&& (r is Ok ==> exists|v: A| #[trigger] call_ensures(a.spec_op(), (), v))
    &&& (r matches Err(msg) ==> exists|v: A|
        #[trigger] call_ensures(a.spec_op(), (), v) && shape_p(v, msg@) && (obeys
            && a.spec_mode() is Consistent ==> matches_p(v)))
    &&& (obeys && a.spec_mode() is Eventual && r is Ok ==> exists|v: A|
        #[trigger] call_ensures(a.spec_op(), (), v) && !matches_p(v))
    &&& (obeys && a.spec_mode() is Consistent && (forall|v: A|
        #[trigger] call_ensures(a.spec_op(), (), v) ==> !matches_p(v)) ==> r is Ok)
    &&& (obeys && a.spec_mode() is Eventual && (forall|v: A|
        #[trigger] call_ensures(a.spec_op(), (), v) ==> matches_p(v)) ==> r is Err)
}

/// `Async`'s precondition, written without the trait: the operation must be
/// invocable.
pub proof fn lemma_async_assert_pre<A, F: Fn() -> A>(a: &Async<A, F>)
    ensures
        a.assert_pre() == call_requires(a.spec_op(), ()),
{
}

/// `Async`'s `to` contract, written without the trait: `to_post` is
/// `async_to_post`.
pub proof fn lemma_async_to_post<A, F: Fn() -> A>(
    a: &Async<A, F>,
    matches_p: spec_fn(A) -> bool,
    shape_p: spec_fn(A, Seq<char>) -> bool,
    obeys: bool,
    r: Result<(), String>,
)
    ensures
        a.to_post(matches_p, shape_p, obeys, r) == async_to_post(a, matches_p, shape_p, obeys, r),
{
}

/// `Async`'s `not_to` contract, written without the trait: `not_to_post` is
/// `async_not_to_post`.
pub proof fn lemma_async_not_to_post<A, F: Fn() -> A>(
    a: &Async<A, F>,
    matches_p: spec_fn(A) -> bool,
    shape_p: spec_fn(A, Seq<char>) -> bool,
    obeys: bool,
    r: Result<(), String>,
)
    ensures
        a.not_to_post(matches_p, shape_p, obeys, r) == async_not_to_post(
            a,
            matches_p,
            shape_p,
            obeys,
            r,
        ),
{
}

impl<A, F: Fn() -> A> Assertion<A> for Async<A, F> {
    open spec fn assert_pre(&self) -> bool {
        call_requires(self.spec_op(), ())
    }

    open spec fn to_post(
        &self,
        matches_p: spec_fn(A) -> bool,
        shape_p: spec_fn(A, Seq<char>) -> bool,
        obeys: bool,
        r: Result<(), String>,
    ) -> bool {
        async_to_post(self, matches_p, shape_p, obeys, r)
    }

    open spec fn not_to_post(
        &self,
        matches_p: spec_fn(A) -> bool,
        shape_p: spec_fn(A, Seq<char>) -> bool,
        obeys: bool,
        r: Result<(), String>,
    ) -> bool {
        async_not_to_post(self, matches_p, shape_p, obeys, r)
    }

    fn to<M: Matcher<A>>(self, matcher: M) -> (r: Result<(), String>) {
        let start = monotonic_now();
        // The poll budget bounds the loop should the clock stop advancing.
        let mut budget: u64 = u64::MAX;
        loop
            invariant
                call_requires(self.spec_op(), ()),
            decreases budget,
        {
            if budget == 0 || elapsed_millis(&start) >= self.timeout_ms {
                break;
            }
            budget = budget - 1;
            let f = &self.func;
            let actual = f();
            match self.check_match(&matcher, actual) {
                Result::Ok(true) => {
                    return Ok(());
                },
                Result::Ok(false) => {},
                Result::Err(msg) => {
                    return Err(msg);
                },
            }
            sleep_millis(self.polling_interval_ms);
        }
        let f = &self.func;
        let actual = f();
        self.check_at_end(&matcher, actual)
    }

    fn not_to<M: Matcher<A>>(self, matcher: M) -> (r: Result<(), String>) {
        let start = monotonic_now();
        // The poll budget bounds the loop should the clock stop advancing.
        let mut budget: u64 = u64::MAX;
        loop
            invariant
                call_requires(self.spec_op(), ()),
            decreases budget,
        {
            if budget == 0 || elapsed_millis(&start) >= self.timeout_ms {
                break;
            }
            budget = budget - 1;
            let f = &self.func;
            let actual = f();
            match self.check_negated_match(&matcher, actual) {
                Result::Ok(true) => {
                    return Ok(());
                },
                Result::Ok(false) => {},
                Result::Err(msg) => {
                    return Err(msg);
                },
            }
            sleep_millis(self.polling_interval_ms);
        }
        let f = &self.func;
        let actual = f();
        self.check_negated_at_end(&matcher, actual)
    }
}

} // verus!
