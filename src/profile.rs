use vstd::prelude::*;

use crate::settings::{
    FinalStatusLevel, RetryPolicy, SlowTimeout, StatusLevel, TestOutputDisplay, TestThreads,
    ThreadsRequired,
};

verus! {

/// The value of the upper layer where it has one, else that of the lower layer.
pub open spec fn or_else<T>(top: Option<T>, base: Option<T>) -> Option<T> {
    match top {
        Some(v) => Some(v),
        None => base,
    }
}

/// Copies an optional string.
pub fn copy_opt_string(s: &Option<String>) -> (r: Option<String>)
    ensures
        r == *s,
{
    match s {
        Some(v) => Some(v.clone()),
        None => None,
    }
}

/// The JUnit report settings of a profile, each of them optional.
#[derive(Debug)]
pub struct JunitSettings {
    pub path: Option<String>,
    pub report_name: Option<String>,
    pub store_success_output: Option<bool>,
    pub store_failure_output: Option<bool>,
}

impl Clone for JunitSettings {
    fn clone(&self) -> (r: Self)
        ensures
            r == *self,
    {
        JunitSettings {
            path: copy_opt_string(&self.path),
            report_name: copy_opt_string(&self.report_name),
            store_success_output: self.store_success_output,
            store_failure_output: self.store_failure_output,
        }
    }
}

/// The scalar settings that one source gives a profile: each one may be left unset.
#[derive(Debug)]
pub struct CustomProfile {
    pub retries: Option<RetryPolicy>,
    pub test_threads: Option<TestThreads>,
    pub threads_required: Option<ThreadsRequired>,
    pub status_level: Option<StatusLevel>,
    pub final_status_level: Option<FinalStatusLevel>,
    pub failure_output: Option<TestOutputDisplay>,
    pub success_output: Option<TestOutputDisplay>,
    pub fail_fast: Option<bool>,
    pub slow_timeout: Option<SlowTimeout>,
    pub leak_timeout_ms: Option<u64>,
    pub junit: JunitSettings,
}

impl Clone for CustomProfile {
    fn clone(&self) -> (r: Self)
        ensures
            r == *self,
    {
        CustomProfile {
            retries: self.retries,
            test_threads: self.test_threads,
            threads_required: self.threads_required,
            status_level: self.status_level,
            final_status_level: self.final_status_level,
            failure_output: self.failure_output,
            success_output: self.success_output,
            fail_fast: self.fail_fast,
            slow_timeout: self.slow_timeout,
            leak_timeout_ms: self.leak_timeout_ms,
            junit: self.junit.clone(),
        }
    }
}

/// `top` laid over `base`: every field that `top` sets wins, the others come from `base`.
pub open spec fn layer(base: CustomProfile, top: CustomProfile) -> CustomProfile {
    CustomProfile {
        retries: or_else(top.retries, base.retries),
        test_threads: or_else(top.test_threads, base.test_threads),
        threads_required: or_else(top.threads_required, base.threads_required),
        status_level: or_else(top.status_level, base.status_level),
        final_status_level: or_else(top.final_status_level, base.final_status_level),
        failure_output: or_else(top.failure_output, base.failure_output),
        success_output: or_else(top.success_output, base.success_output),
        fail_fast: or_else(top.fail_fast, base.fail_fast),
        slow_timeout: or_else(top.slow_timeout, base.slow_timeout),
        leak_timeout_ms: or_else(top.leak_timeout_ms, base.leak_timeout_ms),
        junit: JunitSettings {
            path: or_else(top.junit.path, base.junit.path),
            report_name: or_else(top.junit.report_name, base.junit.report_name),
            store_success_output: or_else(
                top.junit.store_success_output,
                base.junit.store_success_output,
            ),
            store_failure_output: or_else(
                top.junit.store_failure_output,
                base.junit.store_failure_output,
            ),
        },
    }
}

fn or_else_string(top: &Option<String>, base: &Option<String>) -> (r: Option<String>)
    ensures
        r == or_else(*top, *base),
{
    match top {
        Some(v) => Some(v.clone()),
        None => copy_opt_string(base),
    }
}

fn or_else_copy<T: Copy>(top: Option<T>, base: Option<T>) -> (r: Option<T>)
    ensures
        r == or_else(top, base),
{
    match top {
        Some(v) => Some(v),
        None => base,
    }
}

impl CustomProfile {
    /// Lays `top` over `self`.
    pub fn layered(&self, top: &CustomProfile) -> (r: CustomProfile)
        ensures
            r == layer(*self, *top),
    {
        CustomProfile {
            retries: or_else_copy(top.retries, self.retries),
            test_threads: or_else_copy(top.test_threads, self.test_threads),
            threads_required: or_else_copy(top.threads_required, self.threads_required),
            status_level: or_else_copy(top.status_level, self.status_level),
            final_status_level: or_else_copy(top.final_status_level, self.final_status_level),
            failure_output: or_else_copy(top.failure_output, self.failure_output),
            success_output: or_else_copy(top.success_output, self.success_output),
            fail_fast: or_else_copy(top.fail_fast, self.fail_fast),
            slow_timeout: or_else_copy(top.slow_timeout, self.slow_timeout),
            leak_timeout_ms: or_else_copy(top.leak_timeout_ms, self.leak_timeout_ms),
            junit: JunitSettings {
                path: or_else_string(&top.junit.path, &self.junit.path),
                report_name: or_else_string(&top.junit.report_name, &self.junit.report_name),
                store_success_output: or_else_copy(
                    top.junit.store_success_output,
                    self.junit.store_success_output,
                ),
                store_failure_output: or_else_copy(
                    top.junit.store_failure_output,
                    self.junit.store_failure_output,
                ),
            },
        }
    }
}

/// The settings a source declares for one named profile.
#[derive(Debug)]
pub struct NamedProfile {
    pub name: String,
    pub settings: CustomProfile,
}

impl Clone for NamedProfile {
    fn clone(&self) -> (r: Self)
        ensures
            r == *self,
    {
        NamedProfile { name: self.name.clone(), settings: self.settings.clone() }
    }
}

/// What the declarations `ps`, taken in order, say of profile `name`: each one that names it is
/// laid over those before it; `None` where none names it.
pub open spec fn lookup_profile(ps: Seq<NamedProfile>, name: Seq<char>) -> Option<CustomProfile>
    decreases ps.len(),
{
    if ps.len() == 0 {
        None
    } else {
        let prev = lookup_profile(ps.drop_last(), name);
        let last = ps.last();
        if last.name@ == name {
            match prev {
                Some(p) => Some(layer(p, last.settings)),
                None => Some(last.settings),
            }
        } else {
            prev
        }
    }
}

/// Which mandatory field the default profile lacks.
#[derive(Clone, Copy, Debug, PartialEq, Eq, Structural)]
pub enum MissingField {
    Retries,
    TestThreads,
    ThreadsRequired,
    StatusLevel,
    FinalStatusLevel,
    FailureOutput,
    SuccessOutput,
    FailFast,
    SlowTimeout,
    LeakTimeout,
    JunitReportName,
    JunitStoreSuccessOutput,
    JunitStoreFailureOutput,
}

/// Every field that the default profile must give is given.
pub open spec fn is_complete(p: CustomProfile) -> bool {
    &&& p.retries.is_some()
    &&& p.test_threads.is_some()
    &&& p.threads_required.is_some()
    &&& p.status_level.is_some()
    &&& p.final_status_level.is_some()
    &&& p.failure_output.is_some()
    &&& p.success_output.is_some()
    &&& p.fail_fast.is_some()
    &&& p.slow_timeout.is_some()
    &&& p.leak_timeout_ms.is_some()
    &&& p.junit.report_name.is_some()
    &&& p.junit.store_success_output.is_some()
    &&& p.junit.store_failure_output.is_some()
}

/// The JUnit settings of the default profile: all given but the report path, whose absence
/// turns the report off.
#[derive(Debug)]
pub struct DefaultJunit {
    pub path: Option<String>,
    pub report_name: String,
    pub store_success_output: bool,
    pub store_failure_output: bool,
}

/// The default profile: every scalar setting is given.
#[derive(Debug)]
pub struct DefaultProfile {
    pub retries: RetryPolicy,
    pub test_threads: TestThreads,
    pub threads_required: ThreadsRequired,
    pub status_level: StatusLevel,
    pub final_status_level: FinalStatusLevel,
    pub failure_output: TestOutputDisplay,
    pub success_output: TestOutputDisplay,
    pub fail_fast: bool,
    pub slow_timeout: SlowTimeout,
    pub leak_timeout_ms: u64,
    pub junit: DefaultJunit,
}

/// The default profile holds exactly the values of a complete sparse profile.
pub open spec fn default_matches(d: DefaultProfile, p: CustomProfile) -> bool {
    &&& p.retries == Some(d.retries)
    &&& p.test_threads == Some(d.test_threads)
    &&& p.threads_required == Some(d.threads_required)
    &&& p.status_level == Some(d.status_level)
    &&& p.final_status_level == Some(d.final_status_level)
    &&& p.failure_output == Some(d.failure_output)
    &&& p.success_output == Some(d.success_output)
    &&& p.fail_fast == Some(d.fail_fast)
    &&& p.slow_timeout == Some(d.slow_timeout)
    &&& p.leak_timeout_ms == Some(d.leak_timeout_ms)
    &&& p.junit.path == d.junit.path
    &&& p.junit.report_name == Some(d.junit.report_name)
    &&& p.junit.store_success_output == Some(d.junit.store_success_output)
    &&& p.junit.store_failure_output == Some(d.junit.store_failure_output)
}

/// The field `f` is one the sparse profile leaves unset.
pub open spec fn lacks(p: CustomProfile, f: MissingField) -> bool {
    match f {
        MissingField::Retries => p.retries is None,
        MissingField::TestThreads => p.test_threads is None,
        MissingField::ThreadsRequired => p.threads_required is None,
        MissingField::StatusLevel => p.status_level is None,
        MissingField::FinalStatusLevel => p.final_status_level is None,
        MissingField::FailureOutput => p.failure_output is None,
        MissingField::SuccessOutput => p.success_output is None,
        MissingField::FailFast => p.fail_fast is None,
        MissingField::SlowTimeout => p.slow_timeout is None,
        MissingField::LeakTimeout => p.leak_timeout_ms is None,
        MissingField::JunitReportName => p.junit.report_name is None,
        MissingField::JunitStoreSuccessOutput => p.junit.store_success_output is None,
        MissingField::JunitStoreFailureOutput => p.junit.store_failure_output is None,
    }
}

impl DefaultProfile {
    /// Builds the default profile from its merged sparse settings; fails, naming the first
    /// missing field, unless every mandatory field is given.
    pub fn new(p: &CustomProfile) -> (r: Result<DefaultProfile, MissingField>)
        ensures
            r is Ok <==> is_complete(*p),
            r matches Ok(d) ==> default_matches(d, *p),
            r matches Err(f) ==> lacks(*p, f),
    {
        let retries = match p.retries {
            Some(v) => v,
            None => return Err(MissingField::Retries),
        };
        let test_threads = match p.test_threads {
            Some(v) => v,
            None => return Err(MissingField::TestThreads),
        };
        let threads_required = match p.threads_required {
            Some(v) => v,
            None => return Err(MissingField::ThreadsRequired),
        };
        let status_level = match p.status_level {
            Some(v) => v,
            None => return Err(MissingField::StatusLevel),
        };
        let final_status_level = match p.final_status_level {
            Some(v) => v,
            None => return Err(MissingField::FinalStatusLevel),
        };
        let failure_output = match p.failure_output {
            Some(v) => v,
            None => return Err(MissingField::FailureOutput),
        };
        let success_output = match p.success_output {
            Some(v) => v,
            None => return Err(MissingField::SuccessOutput),
        };
        let fail_fast = match p.fail_fast {
            Some(v) => v,
            None => return Err(MissingField::FailFast),
        };
        let slow_timeout = match p.slow_timeout {
            Some(v) => v,
            None => return Err(MissingField::SlowTimeout),
        };
        let leak_timeout_ms = match p.leak_timeout_ms {
            Some(v) => v,
            None => return Err(MissingField::LeakTimeout),
        };
        let report_name = match &p.junit.report_name {
            Some(v) => v.clone(),
            None => return Err(MissingField::JunitReportName),
        };
        let store_success_output = match p.junit.store_success_output {
            Some(v) => v,
            None => return Err(MissingField::JunitStoreSuccessOutput),
        };
        let store_failure_output = match p.junit.store_failure_output {
            Some(v) => v,
            None => return Err(MissingField::JunitStoreFailureOutput),
        };
        Ok(DefaultProfile {
            retries,
            test_threads,
            threads_required,
            status_level,
            final_status_level,
            failure_output,
            success_output,
            fail_fast,
            slow_timeout,
            leak_timeout_ms,
            junit: DefaultJunit {
                path: copy_opt_string(&p.junit.path),
                report_name,
                store_success_output,
                store_failure_output,
            },
        })
    }
}

} // verus!
