//! Retry policy for downloading a `.vsix` package: up to three attempts for
//! transient network failures, no retry once the server has answered with a
//! failure status.

use vstd::prelude::*;
use vstd::string::*;
use crate::metadata::opt_view;
use crate::text::{decimal, push_decimal};

verus! {

/// How many times a download is attempted.
pub open spec fn max_attempts() -> nat {
    3
}

/// Whether an HTTP status code reports success (200 to 299).
pub open spec fn is_success_spec(status: u16) -> bool {
    200 <= status && status <= 299
}

/// Whether an HTTP status code reports success (200 to 299).
pub fn is_success_status(status: u16) -> (r: bool)
    ensures
        r == is_success_spec(status),
{
    200 <= status && status <= 299
}

/// Why a download failed.
#[derive(Debug, Clone, PartialEq, Eq)]
pub enum DownloadError {
    /// The server answered with a status that is not a success.
    HttpStatus(u16),
    /// Every attempt failed; the error of the last one, where there was one.
    ReadFailed(Option<String>),
}

/// The value of a [`DownloadError`].
pub enum DownloadErrorView {
    HttpStatus(u16),
    ReadFailed(Option<Seq<char>>),
}

impl View for DownloadError {
    type V = DownloadErrorView;

    open spec fn view(&self) -> DownloadErrorView {
        match self {
            DownloadError::HttpStatus(s) => DownloadErrorView::HttpStatus(*s),
            DownloadError::ReadFailed(e) => DownloadErrorView::ReadFailed(opt_view(*e)),
        }
    }
}

/// The message of a download error.
pub open spec fn download_error_message(e: DownloadErrorView) -> Seq<char> {
    match e {
        DownloadErrorView::HttpStatus(s) => "vsix download failed: HTTP "@ + decimal(s as nat),
        DownloadErrorView::ReadFailed(Some(m)) => "failed to read vsix bytes: "@ + m,
        DownloadErrorView::ReadFailed(None) => "failed to read vsix bytes"@,
    }
}

impl DownloadError {
    /// The message this error reports.
    pub fn message(&self) -> (r: String)
        ensures
            r@ == download_error_message(self@),
    {
        match self {
            DownloadError::HttpStatus(s) => {
                let mut r = String::from_str("vsix download failed: HTTP ");
                push_decimal(&mut r, *s as u64);
                r
            },
            DownloadError::ReadFailed(Some(m)) => {
                let mut r = String::from_str("failed to read vsix bytes: ");
                r.append(m.as_str());
                r
            },
            DownloadError::ReadFailed(None) => String::from_str("failed to read vsix bytes"),
        }
    }
}

/// What happened since the last step of a download.
#[derive(Debug, Clone, PartialEq, Eq)]
pub enum DownloadEvent {
    /// The download begins.
    Start,
    /// Sending the request failed, with this error.
    SendFailed(String),
    /// The server answered with this status.
    Responded(u16),
    /// The body was read in full.
    BodyRead(Vec<u8>),
    /// Reading the body failed, with this error.
    BodyFailed(String),
}

/// The value of a [`DownloadEvent`].
pub enum DownloadEventView {
    Start,
    SendFailed(Seq<char>),
    Responded(u16),
    BodyRead(Seq<u8>),
    BodyFailed(Seq<char>),
}

impl View for DownloadEvent {
    type V = DownloadEventView;

    open spec fn view(&self) -> DownloadEventView {
        match self {
            DownloadEvent::Start => DownloadEventView::Start,
            DownloadEvent::SendFailed(e) => DownloadEventView::SendFailed(e@),
            DownloadEvent::Responded(s) => DownloadEventView::Responded(*s),
            DownloadEvent::BodyRead(b) => DownloadEventView::BodyRead(b@),
            DownloadEvent::BodyFailed(e) => DownloadEventView::BodyFailed(e@),
        }
    }
}

/// What the caller does next.
#[derive(Debug, Clone, PartialEq, Eq)]
pub enum DownloadAction {
    /// Send the request (again).
    Send,
    /// Read the body of the response.
    ReadBody,
    /// The download is complete with these bytes.
    Finished(Vec<u8>),
    /// The download failed.
    Failed(DownloadError),
}

/// The value of a [`DownloadAction`].
pub enum DownloadActionView {
    Send,
    ReadBody,
    Finished(Seq<u8>),
    Failed(DownloadErrorView),
}

impl View for DownloadAction {
    type V = DownloadActionView;

    open spec fn view(&self) -> DownloadActionView {
        match self {
            DownloadAction::Send => DownloadActionView::Send,
            DownloadAction::ReadBody => DownloadActionView::ReadBody,
            DownloadAction::Finished(b) => DownloadActionView::Finished(b@),
            DownloadAction::Failed(e) => DownloadActionView::Failed(e@),
        }
    }
}

/// Where a download stands: what it waits for.
#[derive(Debug, Clone, Copy, PartialEq, Eq)]
pub enum DownloadPhase {
    /// Not started yet.
    Idle,
    /// A request was sent; its response (or send error) is awaited.
    Sending,
    /// A success response arrived; its body is awaited.
    Reading,
    /// The download finished or failed.
    Over,
}

/// The state of a download: its phase, the attempts made so far and the
/// last error seen.
#[derive(Debug, Clone, PartialEq, Eq)]
pub struct DownloadRetry {
    pub phase: DownloadPhase,
    pub attempt: u32,
    pub last_error: Option<String>,
}

/// The value of a [`DownloadRetry`].
pub struct DownloadRetryView {
    pub phase: DownloadPhase,
    pub attempt: nat,
    pub last_error: Option<Seq<char>>,
}

impl View for DownloadRetry {
    type V = DownloadRetryView;

    open spec fn view(&self) -> DownloadRetryView {
        DownloadRetryView {
            phase: self.phase,
            attempt: self.attempt as nat,
            last_error: opt_view(self.last_error),
        }
    }
}

/// The state of a download that has not started.
pub open spec fn initial_download() -> DownloadRetryView {
    DownloadRetryView { phase: DownloadPhase::Idle, attempt: 0, last_error: None }
}

/// Whether `e` answers what a download in phase `p` waits for: the start
/// before anything, the outcome of sending after a request, the outcome of
/// reading after a success response, and nothing once it is over.
pub open spec fn answers(p: DownloadPhase, e: DownloadEventView) -> bool {
    match p {
        DownloadPhase::Idle => e is Start,
        DownloadPhase::Sending => e is SendFailed || e is Responded,
        DownloadPhase::Reading => e is BodyRead || e is BodyFailed,
        DownloadPhase::Over => false,
    }
}

/// Attempt again while attempts remain; otherwise give up with the last error.
pub open spec fn retry_or_fail(s: DownloadRetryView) -> (DownloadRetryView, DownloadActionView) {
    if s.attempt < max_attempts() {
        (
            DownloadRetryView { phase: DownloadPhase::Sending, attempt: s.attempt + 1, ..s },
            DownloadActionView::Send,
        )
    } else {
        (
            DownloadRetryView { phase: DownloadPhase::Over, ..s },
            DownloadActionView::Failed(DownloadErrorView::ReadFailed(s.last_error)),
        )
    }
}

/// One step of the download policy: the next state and what to do.
pub open spec fn download_step(s: DownloadRetryView, e: DownloadEventView) -> (
    DownloadRetryView,
    DownloadActionView,
) {
    match e {
        DownloadEventView::Start => retry_or_fail(s),
        DownloadEventView::SendFailed(m) => retry_or_fail(
            DownloadRetryView { last_error: Some(m), ..s },
        ),
        DownloadEventView::Responded(status) => if is_success_spec(status) {
            (DownloadRetryView { phase: DownloadPhase::Reading, ..s }, DownloadActionView::ReadBody)
        } else {
            (
                DownloadRetryView { phase: DownloadPhase::Over, ..s },
                DownloadActionView::Failed(DownloadErrorView::HttpStatus(status)),
            )
        },
        DownloadEventView::BodyRead(b) => (
            DownloadRetryView { phase: DownloadPhase::Over, ..s },
            DownloadActionView::Finished(b),
        ),
        DownloadEventView::BodyFailed(m) => retry_or_fail(
            DownloadRetryView { last_error: Some(m), ..s },
        ),
    }
}

impl DownloadRetry {
    /// A download that has not started.
    pub fn new() -> (r: Self)
        ensures
            r@ == initial_download(),
    {
        DownloadRetry { phase: DownloadPhase::Idle, attempt: 0, last_error: None }
    }

    fn retry_or_fail(&mut self) -> (a: DownloadAction)
        ensures
            (final(self)@, a@) == retry_or_fail(old(self)@),
    {
        if self.attempt < 3 {
            self.attempt = self.attempt + 1;
            self.phase = DownloadPhase::Sending;
            DownloadAction::Send
        } else {
            self.phase = DownloadPhase::Over;
            DownloadAction::Failed(
                DownloadError::ReadFailed(crate::metadata::clone_opt_string(&self.last_error)),
            )
        }
    }

    /// Takes in what happened in answer to the last action and says what to do next.
    pub fn step(&mut self, event: DownloadEvent) -> (a: DownloadAction)
        requires
            answers(old(self).phase, event@),
        ensures
            (final(self)@, a@) == download_step(old(self)@, event@),
    {
        match event {
            DownloadEvent::Start => self.retry_or_fail(),
            DownloadEvent::SendFailed(m) => {
                self.last_error = Some(m);
                self.retry_or_fail()
            },
            DownloadEvent::Responded(status) => {
                if is_success_status(status) {
                    self.phase = DownloadPhase::Reading;
                    DownloadAction::ReadBody
                } else {
                    self.phase = DownloadPhase::Over;
                    DownloadAction::Failed(DownloadError::HttpStatus(status))
                }
            },
            DownloadEvent::BodyRead(b) => {
                self.phase = DownloadPhase::Over;
                DownloadAction::Finished(b)
            },
            DownloadEvent::BodyFailed(m) => {
                self.last_error = Some(m);
                self.retry_or_fail()
            },
        }
    }
}

/// The state of a download after the first `k` events of `events`.
pub open spec fn state_after(events: Seq<DownloadEventView>, k: nat) -> DownloadRetryView
    decreases k,
{
    if k == 0 {
        initial_download()
    } else {
        download_step(state_after(events, (k - 1) as nat), events[k - 1]).0
    }
}

/// What a download does in answer to event `k` of `events`.
pub open spec fn action_at(events: Seq<DownloadEventView>, k: nat) -> DownloadActionView {
    download_step(state_after(events, k), events[k as int]).1
}

/// Whether every event of `events` answers what the download waited for.
pub open spec fn valid_run(events: Seq<DownloadEventView>) -> bool {
    forall|k: nat| k < events.len() ==> answers(#[trigger] state_after(events, k).phase, events[k as int])
}

/// The number of times a download starting in state `s` sends its request
/// while it goes through `events`.
pub open spec fn sends_in_run(s: DownloadRetryView, events: Seq<DownloadEventView>) -> nat
    decreases events.len(),
{
    if events.len() == 0 {
        0
    } else {
        let (t, a) = download_step(s, events[0]);
        (if a is Send {
            1nat
        } else {
            0nat
        }) + sends_in_run(t, events.drop_first())
    }
}

/// A step never lowers the attempt count, raises it by one exactly when it
/// sends the request, and sends only while fewer than three attempts were made.
pub proof fn law_step_counts_attempts(s: DownloadRetryView, e: DownloadEventView)
    ensures
        download_step(s, e).0.attempt >= s.attempt,
        download_step(s, e).1 is Send ==> s.attempt < max_attempts() && download_step(s, e).0.attempt
            == s.attempt + 1,
        !(download_step(s, e).1 is Send) ==> download_step(s, e).0.attempt == s.attempt,
{
}

/// However the network behaves, a download sends its request at most three
/// times in all.
pub proof fn law_at_most_three_attempts(events: Seq<DownloadEventView>)
    ensures
        sends_in_run(initial_download(), events) <= max_attempts(),
{
    lemma_sends_bounded(initial_download(), events);
}

proof fn lemma_sends_bounded(s: DownloadRetryView, events: Seq<DownloadEventView>)
    requires
        s.attempt <= max_attempts(),
    ensures
        s.attempt + sends_in_run(s, events) <= max_attempts(),
    decreases events.len(),
{
    if events.len() > 0 {
        let (t, a) = download_step(s, events[0]);
        law_step_counts_attempts(s, events[0]);
        lemma_sends_bounded(t, events.drop_first());
    }
}

/// An answer with a failure status ends the download at once with that
/// status: it is not retried.
pub proof fn law_failure_status_is_final(s: DownloadRetryView, status: u16)
    requires
        !is_success_spec(status),
    ensures
        download_step(s, DownloadEventView::Responded(status)).1 == DownloadActionView::Failed(
            DownloadErrorView::HttpStatus(status),
        ),
        download_step(s, DownloadEventView::Responded(status)).0.phase == DownloadPhase::Over,
{
}

/// A download waits for a body only after a success response, and it
/// finishes only with a body read while it waited for one.
pub proof fn law_finish_follows_success_step(s: DownloadRetryView, e: DownloadEventView)
    ensures
        download_step(s, e).0.phase == DownloadPhase::Reading ==> (e matches DownloadEventView::Responded(
            st,
        ) && is_success_spec(st)),
        answers(s.phase, e) ==> (download_step(s, e).1 matches DownloadActionView::Finished(b) ==> (
        s.phase == DownloadPhase::Reading && e == DownloadEventView::BodyRead(b))),
{
}

/// In a run where every event answers the download's last action, a
/// download finishes with bytes `b` only when the event was the reading of
/// the body `b`, and the event before it a response with a success status.
pub proof fn law_finished_download_read_success_body(
    events: Seq<DownloadEventView>,
    k: nat,
    b: Seq<u8>,
)
    requires
        valid_run(events),
        k < events.len(),
        action_at(events, k) == DownloadActionView::Finished(b),
    ensures
        events[k as int] == DownloadEventView::BodyRead(b),
        k > 0,
        events[k - 1] matches DownloadEventView::Responded(st) && is_success_spec(st),
{
    let s = state_after(events, k);
    assert(answers(s.phase, events[k as int]));
    law_finish_follows_success_step(s, events[k as int]);
    assert(s.phase == DownloadPhase::Reading);
    if k == 0 {
        assert(s == initial_download());
        assert(false);
    }
    let p = state_after(events, (k - 1) as nat);
    law_finish_follows_success_step(p, events[k - 1]);
}

/// A status is a success exactly when it lies from 200 to 299.
pub proof fn law_success_statuses(status: u16)
    ensures
        is_success_spec(status) <==> (200 <= status && status < 300),
        is_success_spec(200),
        is_success_spec(299),
        !is_success_spec(199),
        !is_success_spec(300),
{
}

/// A transient failure (of sending or of reading the body) is retried while
/// fewer than three attempts were made, each retry counting one more
/// attempt and keeping the failure as the last error; after three attempts
/// it ends the download with that failure. Starting makes the first attempt.
pub proof fn law_transient_failures_are_retried(s: DownloadRetryView, m: Seq<char>)
    ensures
        s.attempt < 3 ==> download_step(s, DownloadEventView::SendFailed(m)) == (
            DownloadRetryView {
                phase: DownloadPhase::Sending,
                attempt: s.attempt + 1,
                last_error: Some(m),
            },
            DownloadActionView::Send,
        ),
        s.attempt < 3 ==> download_step(s, DownloadEventView::BodyFailed(m)) == (
            DownloadRetryView {
                phase: DownloadPhase::Sending,
                attempt: s.attempt + 1,
                last_error: Some(m),
            },
            DownloadActionView::Send,
        ),
        s.attempt >= 3 ==> download_step(s, DownloadEventView::SendFailed(m)) == (
            DownloadRetryView { phase: DownloadPhase::Over, attempt: s.attempt, last_error: Some(m) },
            DownloadActionView::Failed(DownloadErrorView::ReadFailed(Some(m))),
        ),
        s.attempt >= 3 ==> download_step(s, DownloadEventView::BodyFailed(m)) == (
            DownloadRetryView { phase: DownloadPhase::Over, attempt: s.attempt, last_error: Some(m) },
            DownloadActionView::Failed(DownloadErrorView::ReadFailed(Some(m))),
        ),
        s.attempt < 3 ==> download_step(s, DownloadEventView::Start) == (
            DownloadRetryView {
                phase: DownloadPhase::Sending,
                attempt: s.attempt + 1,
                last_error: s.last_error,
            },
            DownloadActionView::Send,
        ),
{
}

/// A success response leads to reading its body, and the body read is
/// what the download finishes with, unchanged; neither counts an attempt.
pub proof fn law_success_reads_body(s: DownloadRetryView, status: u16, b: Seq<u8>)
    ensures
        is_success_spec(status) ==> download_step(s, DownloadEventView::Responded(status)) == (
            DownloadRetryView { phase: DownloadPhase::Reading, ..s },
            DownloadActionView::ReadBody,
        ),
        download_step(s, DownloadEventView::BodyRead(b)) == (
            DownloadRetryView { phase: DownloadPhase::Over, ..s },
            DownloadActionView::Finished(b),
        ),
{
}

/// When every send fails, a download makes exactly three attempts and then
/// gives up with the last failure.
pub proof fn law_gives_up_after_third_failed_send(
    m1: Seq<char>,
    m2: Seq<char>,
    m3: Seq<char>,
)
    ensures
        ({
            let events = seq![
                DownloadEventView::Start,
                DownloadEventView::SendFailed(m1),
                DownloadEventView::SendFailed(m2),
                DownloadEventView::SendFailed(m3),
            ];
            &&& valid_run(events)
            &&& action_at(events, 0) == DownloadActionView::Send
            &&& action_at(events, 1) == DownloadActionView::Send
            &&& action_at(events, 2) == DownloadActionView::Send
            &&& action_at(events, 3) == DownloadActionView::Failed(
                DownloadErrorView::ReadFailed(Some(m3)),
            )
            &&& state_after(events, 4).attempt == 3
        }),
{
    let events = seq![
        DownloadEventView::Start,
        DownloadEventView::SendFailed(m1),
        DownloadEventView::SendFailed(m2),
        DownloadEventView::SendFailed(m3),
    ];
    let s0 = state_after(events, 0);
    let s1 = state_after(events, 1);
    let s2 = state_after(events, 2);
    let s3 = state_after(events, 3);
    let s4 = state_after(events, 4);
    assert(s0 == initial_download());
    assert(s1.attempt == 1 && s1.phase == DownloadPhase::Sending);
    assert(s2.attempt == 2 && s2.phase == DownloadPhase::Sending);
    assert(s3.attempt == 3 && s3.phase == DownloadPhase::Sending);
    assert(s4.attempt == 3);
    assert forall|k: nat| k < events.len() implies answers(
        #[trigger] state_after(events, k).phase,
        events[k as int],
    ) by {
        if k == 0 {
        } else if k == 1 {
        } else if k == 2 {
        } else {
            assert(k == 3);
        }
    }
}

/// A failure status is reported with its number in decimal; an exhausted
/// download reports the last failure after the read-failure prefix.
pub proof fn law_download_error_messages(status: u16, m: Seq<char>)
    ensures
        download_error_message(DownloadErrorView::HttpStatus(status)) == "vsix download failed: HTTP "@
            + decimal(status as nat),
        download_error_message(DownloadErrorView::ReadFailed(Some(m))) == "failed to read vsix bytes: "@
            + m,
        download_error_message(DownloadErrorView::ReadFailed(None)) == "failed to read vsix bytes"@,
{
}

} // verus!
