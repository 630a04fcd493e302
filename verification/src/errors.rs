use vstd::prelude::*;

use crate::account::AccountId;

verus! {

/// Classification of an error by who can act on it.
#[derive(Debug, Clone, Copy, PartialEq, Eq, Structural)]
pub enum ErrorCategory {
    UserError,
    SystemError,
    NetworkError,
    ValidationError,
    AuthorizationError,
    StateError,
}

/// How severe an error is.
#[derive(Debug, Clone, Copy, PartialEq, Eq, Structural)]
pub enum ErrorSeverity {
    Low,
    Medium,
    High,
    Critical,
}

/// A rich error record with recovery suggestions and context.
#[derive(Debug, PartialEq)]
pub struct ErrorInfo {
    pub code: String,
    pub message: String,
    pub category: ErrorCategory,
    pub severity: ErrorSeverity,
    pub recovery_suggestions: Vec<String>,
    pub context: Vec<(String, String)>,
    pub timestamp: u64,
}

impl ErrorInfo {
    /// Creates a new error record with no suggestions, no context and a zero
    /// timestamp.
    pub fn new(code: String, message: String, category: ErrorCategory, severity: ErrorSeverity)
        -> (r: Self)
        ensures
            r.code == code,
            r.message == message,
            r.category == category,
            r.severity == severity,
            r.recovery_suggestions@ == Seq::<String>::empty(),
            r.context@ == Seq::<(String, String)>::empty(),
            r.timestamp == 0,
    {
        ErrorInfo {
            code,
            message,
            category,
            severity,
            recovery_suggestions: Vec::new(),
            context: Vec::new(),
            timestamp: 0,
        }
    }

    /// Appends one recovery suggestion.
    pub fn with_suggestion(self, suggestion: String) -> (r: Self)
        ensures
            r == (ErrorInfo { recovery_suggestions: r.recovery_suggestions, ..self }),
            r.recovery_suggestions@ == self.recovery_suggestions@.push(suggestion),
    {
        let mut out = self;
        out.recovery_suggestions.push(suggestion);
        out
    }

    /// Appends several recovery suggestions, in order.
    pub fn with_suggestions(self, suggestions: Vec<String>) -> (r: Self)
        ensures
            r == (ErrorInfo { recovery_suggestions: r.recovery_suggestions, ..self }),
            r.recovery_suggestions@ == self.recovery_suggestions@ + suggestions@,
    {
        let ghost orig = self;
        let mut out = self;
        let mut rest = suggestions;
        let mut i: usize = 0;
        let ghost all = rest@;
        while i < rest.len()
            invariant
                rest@ == all,
                0 <= i <= all.len(),
                out.recovery_suggestions@ == orig.recovery_suggestions@ + all.subrange(
                    0,
                    i as int,
                ),
                out == (ErrorInfo { recovery_suggestions: out.recovery_suggestions, ..orig }),
            decreases all.len() - i,
        {
            let s = rest[i].clone();
            out.recovery_suggestions.push(s);
            i = i + 1;
            proof {
                assert(out.recovery_suggestions@ =~= orig.recovery_suggestions@ + all.subrange(
                    0,
                    i as int,
                ));
            }
        }
        proof {
            assert(orig.recovery_suggestions@ + all.subrange(0, all.len() as int)
                =~= orig.recovery_suggestions@ + all);
        }
        out
    }

    /// Appends one key/value pair of context.
    pub fn with_context(self, key: String, value: String) -> (r: Self)
        ensures
            r == (ErrorInfo { context: r.context, ..self }),
            r.context@ == self.context@.push((key, value)),
    {
        let mut out = self;
        out.context.push((key, value));
        out
    }

    /// Sets the timestamp.
    pub fn with_timestamp(self, timestamp: u64) -> (r: Self)
        ensures
            r == (ErrorInfo { timestamp, ..self }),
    {
        let mut out = self;
        out.timestamp = timestamp;
        out
    }
}

/// Error count per fixed time window.
#[derive(Debug, Clone, Copy, PartialEq, Eq, Structural)]
pub struct ErrorRate {
    /// Errors counted in the current window.
    pub count: u64,
    /// When the current window started.
    pub window_start: u64,
    /// How long a window lasts, in milliseconds.
    pub window_duration: u64,
}

impl ErrorRate {
    /// Creates a tracker with an empty first window.
    pub fn new(window_duration: u64) -> (r: Self)
        ensures
            r.count == 0,
            r.window_start == 0,
            r.window_duration == window_duration,
    {
        ErrorRate { count: 0, window_start: 0, window_duration }
    }

    /// Counts one error: inside the current window the count grows by one,
    /// and a time at or past the window's end starts a fresh window counting
    /// this error alone.
    pub fn increment(&mut self, current_time: u64)
        requires
            old(self).window_start + old(self).window_duration <= u64::MAX,
            old(self).count < u64::MAX,
        ensures
            current_time >= old(self).window_start + old(self).window_duration ==> *final(self)
                == (ErrorRate {
                count: 1,
                window_start: current_time,
                window_duration: old(self).window_duration,
            }),
            current_time < old(self).window_start + old(self).window_duration ==> *final(self)
                == (ErrorRate { count: (old(self).count + 1) as u64, ..*old(self) }),
    {
        if current_time >= self.window_start + self.window_duration {
            self.window_start = current_time;
            self.count = 1;
        } else {
            self.count = self.count + 1;
        }
    }
}

/// A user error of medium severity, with the given recovery suggestions.
pub fn user_error(code: String, message: String, suggestions: Vec<String>) -> (r: ErrorInfo)
    ensures
        r.code == code,
        r.message == message,
        r.category == ErrorCategory::UserError,
        r.severity == ErrorSeverity::Medium,
        r.recovery_suggestions@ == suggestions@,
        r.context@ == Seq::<(String, String)>::empty(),
{
    let e = ErrorInfo::new(code, message, ErrorCategory::UserError, ErrorSeverity::Medium);
    let r = e.with_suggestions(suggestions);
    proof {
        assert(r.recovery_suggestions@ =~= suggestions@);
    }
    r
}

/// A system error of high severity, pointing the user at the administrator.
pub fn system_error(code: String, message: String) -> (r: ErrorInfo)
    ensures
        r.code == code,
        r.message == message,
        r.category == ErrorCategory::SystemError,
        r.severity == ErrorSeverity::High,
        r.recovery_suggestions@.len() == 1,
{
    let e = ErrorInfo::new(code, message, ErrorCategory::SystemError, ErrorSeverity::High);
    e.with_suggestion(String::from_str("Contact contract administrator if issue persists"))
}

/// A network error of medium severity, with the given recovery suggestions.
pub fn network_error(code: String, message: String, suggestions: Vec<String>) -> (r: ErrorInfo)
    ensures
        r.code == code,
        r.message == message,
        r.category == ErrorCategory::NetworkError,
        r.severity == ErrorSeverity::Medium,
        r.recovery_suggestions@ == suggestions@,
{
    let e = ErrorInfo::new(code, message, ErrorCategory::NetworkError, ErrorSeverity::Medium);
    let r = e.with_suggestions(suggestions);
    proof {
        assert(r.recovery_suggestions@ =~= suggestions@);
    }
    r
}

/// A validation error of low severity, naming the offending field.
pub fn validation_error(code: String, message: String, field: String) -> (r: ErrorInfo)
    ensures
        r.code == code,
        r.message == message,
        r.category == ErrorCategory::ValidationError,
        r.severity == ErrorSeverity::Low,
        r.context@.len() == 1,
        r.context@[0].1 == field,
        r.recovery_suggestions@.len() == 1,
{
    let e = ErrorInfo::new(code, message, ErrorCategory::ValidationError, ErrorSeverity::Low);
    let e = e.with_context(String::from_str("field"), field);
    e.with_suggestion(String::from_str("Check input parameters and try again"))
}

/// An authorization error of medium severity, naming the permission the
/// caller lacks.
pub fn authorization_error(code: String, message: String, required_permission: String) -> (r:
    ErrorInfo)
    ensures
        r.code == code,
        r.message == message,
        r.category == ErrorCategory::AuthorizationError,
        r.severity == ErrorSeverity::Medium,
        r.context@.len() == 1,
        r.context@[0].1 == required_permission,
        r.recovery_suggestions@.len() == 2,
{
    let e = ErrorInfo::new(
        code,
        message,
        ErrorCategory::AuthorizationError,
        ErrorSeverity::Medium,
    );
    let e = e.with_context(String::from_str("required_permission"), required_permission);
    let e = e.with_suggestion(String::from_str("Ensure you have the required permissions"));
    e.with_suggestion(
        String::from_str("Contact the contract owner if you believe this is an error"),
    )
}

/// A state error of high severity, recording expected and actual state.
pub fn state_error(code: String, message: String, expected_state: String, actual_state: String)
    -> (r: ErrorInfo)
    ensures
        r.code == code,
        r.message == message,
        r.category == ErrorCategory::StateError,
        r.severity == ErrorSeverity::High,
        r.context@.len() == 2,
        r.context@[0].1 == expected_state,
        r.context@[1].1 == actual_state,
        r.recovery_suggestions@.len() == 2,
{
    let e = ErrorInfo::new(code, message, ErrorCategory::StateError, ErrorSeverity::High);
    let e = e.with_context(String::from_str("expected_state"), expected_state);
    let e = e.with_context(String::from_str("actual_state"), actual_state);
    let e = e.with_suggestion(String::from_str("Wait for the contract state to update"));
    e.with_suggestion(String::from_str("Check transaction status and retry if needed"))
}

/// Turns an optional value into a result, with a system error in place of a
/// panic.
pub fn safe_unwrap<T>(option: Option<T>, error_code: String, error_message: String) -> (r: Result<
    T,
    ErrorInfo,
>)
    ensures
        option is Some <==> r is Ok,
        option matches Some(v) ==> r matches Ok(w) && w == v,
        r matches Err(e) ==> e.code == error_code && e.message == error_message && e.category
            == ErrorCategory::SystemError && e.severity == ErrorSeverity::High,
{
    match option {
        Some(v) => Ok(v),
        None => {
            let e = ErrorInfo::new(
                error_code,
                error_message,
                ErrorCategory::SystemError,
                ErrorSeverity::High,
            );
            let e = e.with_suggestion(
                String::from_str("This indicates an internal contract error"),
            );
            Err(
                e.with_suggestion(
                    String::from_str(
                        "Please report this issue to the contract administrator",
                    ),
                ),
            )
        },
    }
}

/// Like `safe_unwrap`, with extra context recorded on the error.
pub fn safe_expect<T>(
    option: Option<T>,
    error_code: String,
    error_message: String,
    context: Vec<(String, String)>,
) -> (r: Result<T, ErrorInfo>)
    ensures
        option is Some <==> r is Ok,
        option matches Some(v) ==> r matches Ok(w) && w == v,
        r matches Err(e) ==> e.code == error_code && e.message == error_message && e.category
            == ErrorCategory::SystemError && e.severity == ErrorSeverity::High && e.context@
            == context@,
{
    match option {
        Some(v) => Ok(v),
        None => {
            let e = ErrorInfo::new(
                error_code,
                error_message,
                ErrorCategory::SystemError,
                ErrorSeverity::High,
            );
            let e = e.with_suggestion(
                String::from_str("This indicates an internal contract error"),
            );
            let e = e.with_suggestion(
                String::from_str("Please report this issue to the contract administrator"),
            );
            let mut e = e;
            let mut ctx = context;
            let mut i: usize = 0;
            let ghost all = ctx@;
            while i < ctx.len()
                invariant
                    ctx@ == all,
                    0 <= i <= all.len(),
                    e.context@ == all.subrange(0, i as int),
                    e.code == error_code,
                    e.message == error_message,
                    e.category == ErrorCategory::SystemError,
                    e.severity == ErrorSeverity::High,
                decreases all.len() - i,
            {
                let k = ctx[i].0.clone();
                let v = ctx[i].1.clone();
                e.context.push((k, v));
                i = i + 1;
                proof {
                    assert(e.context@ =~= all.subrange(0, i as int));
                }
            }
            proof {
                assert(e.context@ =~= context@);
            }
            Err(e)
        },
    }
}


/// One per-account, per-code error tally.
#[derive(Debug, PartialEq)]
pub struct ErrorCountEntry {
    pub account: AccountId,
    pub code: String,
    pub count: u64,
}

/// One per-code error rate tracker.
#[derive(Debug, PartialEq)]
pub struct ErrorRateEntry {
    pub code: String,
    pub rate: ErrorRate,
}

/// True when the tallies hold `v` for the account and code: the matching
/// entry's count, or zero when none exists.
pub open spec fn counts_give(
    entries: Seq<ErrorCountEntry>,
    account: AccountId,
    code: Seq<char>,
    v: u64,
) -> bool {
    if exists|i: int|
        0 <= i < entries.len() && (#[trigger] entries[i]).account == account && entries[i].code@
            == code {
        exists|i: int|
            0 <= i < entries.len() && (#[trigger] entries[i]).account == account && entries[i].code@
                == code && entries[i].count == v
    } else {
        v == 0
    }
}

/// Two error records agree on everything observable.
pub open spec fn error_info_matches(a: ErrorInfo, b: ErrorInfo) -> bool {
    &&& a.code == b.code
    &&& a.message == b.message
    &&& a.category == b.category
    &&& a.severity == b.severity
    &&& a.recovery_suggestions@ == b.recovery_suggestions@
    &&& a.context@ == b.context@
    &&& a.timestamp == b.timestamp
}

/// An error log for monitoring: per-account tallies, per-code rates, and a
/// bounded list of the most recent errors.
pub struct ErrorLogger {
    /// Per-account, per-code tallies, one entry per pair.
    pub error_counts: Vec<ErrorCountEntry>,
    /// The most recent errors, oldest first, at most `max_recent_errors`.
    pub recent_errors: Vec<ErrorInfo>,
    /// Per-code rates, one entry per code.
    pub error_rates: Vec<ErrorRateEntry>,
    /// How many recent errors are kept.
    pub max_recent_errors: u32,
}

impl ErrorLogger {
    /// The tallies hold each (account, code) pair at most once, and the
    /// rates each code.
    pub open spec fn wf(self) -> bool {
        &&& forall|i: int, j: int|
            0 <= i < j < self.error_counts@.len() ==> !((#[trigger] self.error_counts@[i]).account
                == (#[trigger] self.error_counts@[j]).account && self.error_counts@[i].code@
                == self.error_counts@[j].code@)
        &&& forall|i: int, j: int|
            0 <= i < j < self.error_rates@.len() ==> (#[trigger] self.error_rates@[i]).code@ != (
            #[trigger] self.error_rates@[j]).code@
    }

    /// Creates an empty log keeping at most the given number of recent
    /// errors.
    pub fn new(max_recent_errors: u32) -> (r: Self)
        ensures
            r.wf(),
            r.error_counts@.len() == 0,
            r.recent_errors@.len() == 0,
            r.error_rates@.len() == 0,
            r.max_recent_errors == max_recent_errors,
    {
        ErrorLogger {
            error_counts: Vec::new(),
            recent_errors: Vec::new(),
            error_rates: Vec::new(),
            max_recent_errors,
        }
    }

    /// Records one error: the (account, code) tally grows by one, the code's
    /// rate counts the error in its window, and the record joins the recent
    /// list, pushing the oldest out once the list is full. Counts and
    /// windows saturate rather than wrap.
    pub fn log_error(&mut self, account: AccountId, error_info: ErrorInfo, current_timestamp: u64)
        requires
            old(self).wf(),
        ensures
            final(self).wf(),
            final(self).max_recent_errors == old(self).max_recent_errors,
            // The tally for this account and code grows by one.
            forall|v: u64|
                counts_give(old(self).error_counts@, account, error_info.code@, v) && v < u64::MAX
                    ==> counts_give(
                    final(self).error_counts@,
                    account,
                    error_info.code@,
                    (v + 1) as u64,
                ),
            // Structurally: the matching entry grew, or a fresh entry with
            // count one was appended; nothing else moved.
            ({
                let olds = old(self).error_counts@;
                let news = final(self).error_counts@;
                ||| (exists|k: int|
                    0 <= k < olds.len() && (#[trigger] olds[k]).account == account && olds[k].code@
                        == error_info.code@ && news == olds.update(
                        k,
                        (ErrorCountEntry {
                            account,
                            code: news[k].code,
                            count: spec_inc_sat(olds[k].count),
                        }),
                    ) && news[k].code@ == error_info.code@)
                ||| ((forall|x: int|
                    0 <= x < olds.len() ==> !((#[trigger] olds[x]).account == account
                        && olds[x].code@ == error_info.code@)) && news == olds.push(news.last())
                    && news.last().account == account && news.last().code@ == error_info.code@
                    && news.last().count == 1)
            }),
            // The record, stamped with the time, joins the recent list.
            ({
                let stamped = (ErrorInfo { timestamp: current_timestamp, ..error_info });
                let pushed = old(self).recent_errors@.push(stamped);
                if pushed.len() > old(self).max_recent_errors {
                    final(self).recent_errors@ == pushed.skip(1)
                } else {
                    final(self).recent_errors@ == pushed
                }
            }),
    {
        let code_for_rate = error_info.code.clone();
        let code_for_count = error_info.code.clone();
        let stamped = error_info.with_timestamp(current_timestamp);
        // Update the per-account tally.
        let mut i: usize = 0;
        let mut found: Option<usize> = None;
        while i < self.error_counts.len()
            invariant
                *self == *old(self),
                old(self).wf(),
                code_for_count == error_info.code,
                0 <= i <= self.error_counts@.len(),
                found is None ==> forall|j: int|
                    0 <= j < i ==> !((#[trigger] self.error_counts@[j]).account == account
                        && self.error_counts@[j].code@ == error_info.code@),
                found matches Some(k) ==> k < i && self.error_counts@[k as int].account == account
                    && self.error_counts@[k as int].code@ == error_info.code@,
            decreases self.error_counts@.len() - i,
        {
            if found.is_none() && self.error_counts[i].account == account && self.error_counts[
            i].code == code_for_count {
                found = Some(i);
            }
            i = i + 1;
        }
        match found {
            Some(k) => {
                let mut entry = self.error_counts.remove(k);
                entry.count = entry.count.saturating_add(1);
                self.error_counts.insert(k, entry);
                proof {
                    assert(self.error_counts@ =~= old(self).error_counts@.update(
                        k as int,
                        self.error_counts@[k as int],
                    ));
                }
            },
            None => {
                self.error_counts.push(
                    ErrorCountEntry { account, code: code_for_count, count: 1 },
                );
            },
        }
        // Update the per-code rate.
        let mut i2: usize = 0;
        let mut found_rate: Option<usize> = None;
        while i2 < self.error_rates.len()
            invariant
                old(self).wf(),
                self.error_rates == old(self).error_rates,
                code_for_rate == error_info.code,
                0 <= i2 <= self.error_rates@.len(),
                found_rate is None ==> forall|j: int|
                    0 <= j < i2 ==> (#[trigger] self.error_rates@[j]).code@ != error_info.code@,
                found_rate matches Some(k) ==> k < i2 && self.error_rates@[k as int].code@
                    == error_info.code@,
            decreases self.error_rates@.len() - i2,
        {
            if found_rate.is_none() && self.error_rates[i2].code == code_for_rate {
                found_rate = Some(i2);
            }
            i2 = i2 + 1;
        }
        match found_rate {
            Some(k) => {
                let mut entry = self.error_rates.remove(k);
                entry.rate = rate_counted(entry.rate, current_timestamp);
                self.error_rates.insert(k, entry);
                proof {
                    assert(self.error_rates@ =~= old(self).error_rates@.update(
                        k as int,
                        self.error_rates@[k as int],
                    ));
                }
            },
            None => {
                let rate = rate_counted(ErrorRate::new(3600000), current_timestamp);
                self.error_rates.push(ErrorRateEntry { code: code_for_rate, rate });
            },
        }
        // Keep the most recent errors, bounded.
        self.recent_errors.push(stamped);
        if self.recent_errors.len() > self.max_recent_errors as usize {
            self.recent_errors.remove(0);
            proof {
                assert(self.recent_errors@ =~= old(self).recent_errors@.push(
                    (ErrorInfo { timestamp: current_timestamp, ..error_info }),
                ).skip(1));
            }
        }
        proof {
            let olds = old(self).error_counts@;
            let news = self.error_counts@;
            let code = error_info.code@;
            // The tallies keep one entry per pair, and read as promised.
            if found is Some {
                let k = found->0 as int;
                assert(news.len() == olds.len());
                assert(news[k].account == account && news[k].code@ == code);
                assert(forall|x: int| 0 <= x < news.len() && x != k ==> news[x] == olds[x]);
                assert(news[k].account == olds[k].account && news[k].code@ == olds[k].code@);
                assert forall|i3: int, j3: int| 0 <= i3 < j3 < news.len() implies !((
                #[trigger] news[i3]).account == (#[trigger] news[j3]).account && news[i3].code@
                    == news[j3].code@) by {
                    assert(!(olds[i3].account == olds[j3].account && olds[i3].code@
                        == olds[j3].code@));
                }
                assert forall|v: u64|
                    counts_give(olds, account, code, v) && v < u64::MAX implies counts_give(
                    news,
                    account,
                    code,
                    (v + 1) as u64,
                ) by {
                    let i3 = choose|i3: int|
                        0 <= i3 < olds.len() && (#[trigger] olds[i3]).account == account
                            && olds[i3].code@ == code && olds[i3].count == v;
                    if i3 != k {
                        assert(!(olds[i3].account == olds[k].account && olds[i3].code@
                            == olds[k].code@) || !(olds[k].account == olds[i3].account
                            && olds[k].code@ == olds[i3].code@));
                    }
                    assert(v == olds[k].count);
                    assert(news[k].count == v + 1);
                }
                assert(news =~= olds.update(
                    k,
                    (ErrorCountEntry {
                        account,
                        code: news[k].code,
                        count: spec_inc_sat(olds[k].count),
                    }),
                ));
            } else {
                assert(news =~= olds.push(news.last()));
                assert(news.last().account == account && news.last().code@ == code
                    && news.last().count == 1);
                assert(forall|x: int|
                    0 <= x < olds.len() ==> !((#[trigger] olds[x]).account == account && olds[x].code@
                        == code));
                assert forall|i3: int, j3: int| 0 <= i3 < j3 < news.len() implies !((
                #[trigger] news[i3]).account == (#[trigger] news[j3]).account && news[i3].code@
                    == news[j3].code@) by {
                    if j3 < news.len() - 1 {
                        assert(!(olds[i3].account == olds[j3].account && olds[i3].code@
                            == olds[j3].code@));
                    } else {
                        assert(!(olds[i3].account == account && olds[i3].code@ == code));
                    }
                }
                assert forall|v: u64|
                    counts_give(olds, account, code, v) && v < u64::MAX implies counts_give(
                    news,
                    account,
                    code,
                    (v + 1) as u64,
                ) by {
                    assert(v == 0);
                    assert(news[news.len() - 1].account == account && news[news.len() - 1].code@
                        == code && news[news.len() - 1].count == 1);
                }

            }
            // Rate entries keep one entry per code.
            if found_rate is Some {
                let k2 = found_rate->0 as int;
                assert forall|i3: int, j3: int|
                    0 <= i3 < j3 < self.error_rates@.len() implies (
                #[trigger] self.error_rates@[i3]).code@ != (
                #[trigger] self.error_rates@[j3]).code@ by {
                    assert(self.error_rates@[i3].code@ == old(self).error_rates@[i3].code@);
                    assert(self.error_rates@[j3].code@ == old(self).error_rates@[j3].code@);
                    assert(old(self).error_rates@[i3].code@ != old(self).error_rates@[j3].code@);
                }
            } else {
                assert forall|i3: int, j3: int|
                    0 <= i3 < j3 < self.error_rates@.len() implies (
                #[trigger] self.error_rates@[i3]).code@ != (
                #[trigger] self.error_rates@[j3]).code@ by {
                    if j3 < self.error_rates@.len() - 1 {
                        assert(old(self).error_rates@[i3].code@ != old(
                            self,
                        ).error_rates@[j3].code@);
                    } else {
                        assert(old(self).error_rates@[i3].code@ != error_info.code@);
                    }
                }
            }
        }
    }

    /// Looks the tally for an account and code up.
    pub fn get_error_count(&self, account: AccountId, error_code: &str) -> (r: u64)
        ensures
            counts_give(self.error_counts@, account, error_code@, r),
    {
        let needle = String::from_str(error_code);
        let mut i: usize = 0;
        while i < self.error_counts.len()
            invariant
                needle@ == error_code@,
                0 <= i <= self.error_counts@.len(),
                forall|j: int|
                    0 <= j < i ==> !((#[trigger] self.error_counts@[j]).account == account
                        && self.error_counts@[j].code@ == error_code@),
            decreases self.error_counts@.len() - i,
        {
            if self.error_counts[i].account == account && self.error_counts[i].code == needle {
                proof {
                    assert(self.error_counts@[i as int].account == account
                        && self.error_counts@[i as int].code@ == error_code@
                        && self.error_counts@[i as int].count == self.error_counts@[i as int].count);
                }
                return self.error_counts[i].count;
            }
            i = i + 1;
        }
        0
    }

    /// Returns copies of the most recent errors, at most `limit`, oldest
    /// first.
    pub fn get_recent_errors(&self, limit: u32) -> (r: Vec<ErrorInfo>)
        ensures
            ({
                let kept = if self.recent_errors@.len() > limit {
                    self.recent_errors@.skip(self.recent_errors@.len() - limit)
                } else {
                    self.recent_errors@
                };
                &&& r@.len() == kept.len()
                &&& forall|k: int|
                    0 <= k < kept.len() ==> error_info_matches(#[trigger] r@[k], kept[k])
            }),
    {
        let start: usize = if self.recent_errors.len() > limit as usize {
            self.recent_errors.len() - limit as usize
        } else {
            0
        };
        let mut out: Vec<ErrorInfo> = Vec::new();
        let mut i: usize = start;
        while i < self.recent_errors.len()
            invariant
                0 <= start <= i <= self.recent_errors@.len(),
                out@.len() == i - start,
                forall|k: int|
                    0 <= k < out@.len() ==> error_info_matches(
                        #[trigger] out@[k],
                        self.recent_errors@[start + k],
                    ),
            decreases self.recent_errors@.len() - i,
        {
            let e = &self.recent_errors[i];
            let copy = ErrorInfo {
                code: e.code.clone(),
                message: e.message.clone(),
                category: e.category,
                severity: e.severity,
                recovery_suggestions: clone_strings(&e.recovery_suggestions),
                context: clone_pairs(&e.context),
                timestamp: e.timestamp,
            };
            out.push(copy);
            i = i + 1;
        }
        out
    }
}

/// A rate tracker after counting one error, with saturating arithmetic in
/// place of a panic on overflow.
fn rate_counted(rate: ErrorRate, current_time: u64) -> (r: ErrorRate)
    ensures
        current_time >= crate::shares::spec_sat_add_u64(rate.window_start, rate.window_duration)
            ==> r == (ErrorRate { count: 1, window_start: current_time, ..rate }),
        current_time < crate::shares::spec_sat_add_u64(rate.window_start, rate.window_duration)
            ==> r == (ErrorRate { count: spec_inc_sat(rate.count), ..rate }),
{
    if current_time >= rate.window_start.saturating_add(rate.window_duration) {
        ErrorRate { count: 1, window_start: current_time, ..rate }
    } else {
        ErrorRate { count: rate.count.saturating_add(1), ..rate }
    }
}

/// A count one higher, saturating at the largest representable value.
pub open spec fn spec_inc_sat(c: u64) -> u64 {
    if c == u64::MAX {
        c
    } else {
        (c + 1) as u64
    }
}

/// Copies a list of text lines.
fn clone_strings(v: &Vec<String>) -> (r: Vec<String>)
    ensures
        r@ == v@,
{
    let mut r: Vec<String> = Vec::new();
    let mut i: usize = 0;
    while i < v.len()
        invariant
            0 <= i <= v@.len(),
            r@ == v@.subrange(0, i as int),
        decreases v@.len() - i,
    {
        r.push(v[i].clone());
        i = i + 1;
        proof {
            assert(r@ =~= v@.subrange(0, i as int));
        }
    }
    proof {
        assert(r@ =~= v@);
    }
    r
}

/// Copies a list of key/value pairs.
fn clone_pairs(v: &Vec<(String, String)>) -> (r: Vec<(String, String)>)
    ensures
        r@ == v@,
{
    let mut r: Vec<(String, String)> = Vec::new();
    let mut i: usize = 0;
    while i < v.len()
        invariant
            0 <= i <= v@.len(),
            r@ == v@.subrange(0, i as int),
        decreases v@.len() - i,
    {
        let k = v[i].0.clone();
        let val = v[i].1.clone();
        r.push((k, val));
        proof {
            assert((k, val) == v@[i as int]);
        }
        i = i + 1;
        proof {
            assert(r@ =~= v@.subrange(0, i as int));
        }
    }
    proof {
        assert(r@ =~= v@);
    }
    r
}

} // verus!
