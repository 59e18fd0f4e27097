use vstd::prelude::*;

verus! {

/// How often, and with what spacing, a failing test is retried.
#[derive(Clone, Copy, Debug, PartialEq, Eq, Structural)]
pub enum RetryPolicy {
    /// Retry `count` times, waiting `delay_ms` between attempts.
    Fixed { count: u32, delay_ms: u64, jitter: bool },
    /// Retry `count` times, doubling the wait each time, up to `max_delay_ms` if given.
    Exponential { count: u32, delay_ms: u64, jitter: bool, max_delay_ms: Option<u64> },
}

/// The number of tests that may run at once.
#[derive(Clone, Copy, Debug, PartialEq, Eq, Structural)]
pub enum TestThreads {
    /// A fixed number of threads.
    Count(usize),
    /// One thread per logical CPU.
    NumCpus,
}

/// The number of thread slots a single test occupies.
#[derive(Clone, Copy, Debug, PartialEq, Eq, Structural)]
pub enum ThreadsRequired {
    /// A fixed number of slots.
    Count(usize),
    /// As many slots as there are logical CPUs.
    NumCpus,
    /// As many slots as the profile's test thread budget.
    NumTestThreads,
}

/// When a test is reported as slow, and after how many slow periods it is stopped.
#[derive(Clone, Copy, Debug, PartialEq, Eq, Structural)]
pub struct SlowTimeout {
    pub period_ms: u64,
    pub terminate_after: Option<usize>,
}

/// Which test statuses are shown while a run is in progress.
#[derive(Clone, Copy, Debug, PartialEq, Eq, Structural)]
pub enum StatusLevel {
    Off,
    Fail,
    Retry,
    Slow,
    Leak,
    Pass,
    Skip,
    All,
}

/// Which test statuses are shown at the end of a run.
#[derive(Clone, Copy, Debug, PartialEq, Eq, Structural)]
pub enum FinalStatusLevel {
    Off,
    Fail,
    Flaky,
    Slow,
    Skip,
    Pass,
    All,
}

/// When the output of a test is shown.
#[derive(Clone, Copy, Debug, PartialEq, Eq, Structural)]
pub enum TestOutputDisplay {
    Immediate,
    ImmediateFinal,
    Final,
    Never,
}

/// The side of a build that a test binary belongs to.
#[derive(Clone, Copy, Debug, PartialEq, Eq, Structural)]
pub enum BuildPlatform {
    Host,
    Target,
}

/// The concurrency group a test is assigned to.
#[derive(Debug)]
pub enum TestGroup {
    /// The shared group that every test belongs to unless told otherwise.
    Global,
    /// A group declared under `test-groups`.
    Custom(String),
}

impl Clone for TestGroup {
    fn clone(&self) -> (r: Self)
        ensures
            r == *self,
    {
        match self {
            TestGroup::Global => TestGroup::Global,
            TestGroup::Custom(name) => TestGroup::Custom(name.clone()),
        }
    }
}

/// The settings of a declared test group.
#[derive(Clone, Copy, Debug, PartialEq, Eq, Structural)]
pub struct TestGroupConfig {
    pub max_threads: TestThreads,
}

/// The sparse set of values that one override sets.
#[derive(Debug)]
pub struct OverrideData {
    pub retries: Option<RetryPolicy>,
    pub threads_required: Option<ThreadsRequired>,
    pub test_group: Option<TestGroup>,
    pub slow_timeout: Option<SlowTimeout>,
    pub leak_timeout_ms: Option<u64>,
}

impl Clone for OverrideData {
    fn clone(&self) -> (r: Self)
        ensures
            r == *self,
    {
        let test_group = match &self.test_group {
            Some(g) => Some(g.clone()),
            None => None,
        };
        OverrideData {
            retries: self.retries,
            threads_required: self.threads_required,
            test_group,
            slow_timeout: self.slow_timeout,
            leak_timeout_ms: self.leak_timeout_ms,
        }
    }
}

/// The fully resolved settings of one test.
#[derive(Debug)]
pub struct TestSettings {
    pub retries: RetryPolicy,
    pub threads_required: ThreadsRequired,
    pub test_group: TestGroup,
    pub slow_timeout: SlowTimeout,
    pub leak_timeout_ms: u64,
}

impl TestSettings {
    /// Returns the retry policy of the test.
    pub fn retries(&self) -> (r: RetryPolicy)
        ensures
            r == self.retries,
    {
        self.retries
    }

    /// Returns the thread slots the test occupies.
    pub fn threads_required(&self) -> (r: ThreadsRequired)
        ensures
            r == self.threads_required,
    {
        self.threads_required
    }

    /// Returns the test group of the test.
    pub fn test_group(&self) -> (r: &TestGroup)
        ensures
            *r == self.test_group,
    {
        &self.test_group
    }

    /// Returns the slow timeout of the test.
    pub fn slow_timeout(&self) -> (r: SlowTimeout)
        ensures
            r == self.slow_timeout,
    {
        self.slow_timeout
    }

    /// Returns the leak timeout of the test, in milliseconds.
    pub fn leak_timeout_ms(&self) -> (r: u64)
        ensures
            r == self.leak_timeout_ms,
    {
        self.leak_timeout_ms
    }
}

/// The logical CPU count to plan with: the detected count, or a single CPU where detection
/// failed (or reported none).
pub fn num_cpus_or_one(detected: Option<usize>) -> (r: usize)
    ensures
        r == match detected {
            Some(n) => if n == 0 { 1 } else { n },
            None => 1,
        },
        r >= 1,
{
    match detected {
        Some(n) => if n == 0 { 1 } else { n },
        None => 1,
    }
}

} // verus!
