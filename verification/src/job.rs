use vstd::prelude::*;

use crate::history::{optional_text, HistoryEntry};
use crate::text::{decimal_text, lemma_decimal_text_injective, push_decimal};

verus! {

/// The state of one file in a batch, as the window shows it.
#[derive(Debug, Clone)]
pub struct ConversionJob {
    pub file_path: String,
    pub status: String,
    pub progress: u8,
    pub output_path: Option<String>,
    pub error: Option<String>,
}

/// The model of a job: file path, status, progress, output path and error.
pub type JobModel = (Seq<char>, Seq<char>, u8, Option<Seq<char>>, Option<Seq<char>>);

impl View for ConversionJob {
    type V = JobModel;

    open spec fn view(&self) -> JobModel {
        (self.file_path@, self.status@, self.progress, optional_text(self.output_path), optional_text(self.error))
    }
}

/// "converting"
pub open spec fn converting_status() -> Seq<char> {
    seq!['c', 'o', 'n', 'v', 'e', 'r', 't', 'i', 'n', 'g']
}

/// "completed"
pub open spec fn completed_status() -> Seq<char> {
    seq!['c', 'o', 'm', 'p', 'l', 'e', 't', 'e', 'd']
}

/// "failed"
pub open spec fn failed_status() -> Seq<char> {
    seq!['f', 'a', 'i', 'l', 'e', 'd']
}

/// Progress of a job that has just started.
pub const PROGRESS_STARTED: u8 = 5;

/// Progress of a job whose output path is chosen.
pub const PROGRESS_CONVERTING: u8 = 35;

/// Progress of a finished job.
pub const PROGRESS_DONE: u8 = 100;

/// A job that has just started on `file_path`.
pub open spec fn started_job(file_path: Seq<char>) -> JobModel {
    (file_path, converting_status(), PROGRESS_STARTED, None, None)
}

/// The job refused because its file is not a WebP file.
pub open spec fn rejected_job(job: JobModel, reason: Seq<char>) -> JobModel {
    (job.0, failed_status(), PROGRESS_DONE, job.3, Some(reason))
}

/// The job once its output path is chosen.
pub open spec fn converting_job(job: JobModel, output_path: Seq<char>) -> JobModel {
    (job.0, job.1, PROGRESS_CONVERTING, Some(output_path), job.4)
}

/// The job once its conversion has produced the file at `output_path`.
pub open spec fn completed_job(job: JobModel, output_path: Seq<char>) -> JobModel {
    (job.0, completed_status(), PROGRESS_DONE, Some(output_path), job.4)
}

/// The job once its conversion has failed with `error`.
pub open spec fn failed_job(job: JobModel, error: Seq<char>) -> JobModel {
    (job.0, failed_status(), PROGRESS_DONE, job.3, Some(error))
}

/// A job's status and progress agree: a running job is at 5 or 35 and has
/// no error; a completed job is at 100, has an output path and no error; a
/// failed job is at 100 and has an error.
pub open spec fn job_consistent(job: JobModel) -> bool {
    ||| job.1 == converting_status() && (job.2 == PROGRESS_STARTED || job.2 == PROGRESS_CONVERTING)
        && job.4 is None
    ||| job.1 == completed_status() && job.2 == PROGRESS_DONE && job.3 is Some && job.4 is None
    ||| job.1 == failed_status() && job.2 == PROGRESS_DONE && job.4 is Some
}

/// A job has finished.
pub open spec fn job_finished(job: JobModel) -> bool {
    job.1 == completed_status() || job.1 == failed_status()
}

impl ConversionJob {
    /// A job for the file at `file_path`, just started.
    pub fn start(file_path: String) -> (r: ConversionJob)
        ensures
            r@ == started_job(file_path@),
    {
        proof {
            reveal_strlit("converting");
        }
        let status = String::from_str("converting");
        assert(status@ =~= converting_status());
        ConversionJob { file_path, status, progress: PROGRESS_STARTED, output_path: None, error: None }
    }

    /// Refuses the job because its file is not a WebP file, and gives the
    /// message for the history.
    pub fn reject_not_webp(&mut self) -> (message: String)
        ensures
            final(self)@.0 == old(self)@.0,
            final(self)@.1 == failed_status() && final(self)@.2 == PROGRESS_DONE,
            final(self)@.4 == Some(not_webp_message()),
            final(self)@ == rejected_job(old(self)@, message@),
            message@ == not_webp_message(),
    {
        proof {
            reveal_strlit("failed");
            reveal_strlit("请选择 WebP 文件");
        }
        let status = String::from_str("failed");
        assert(status@ =~= failed_status());
        let reason = "请选择 WebP 文件";
        assert(reason@ =~= not_webp_message());
        self.status = status;
        self.progress = PROGRESS_DONE;
        self.error = Some(String::from_str(reason));
        String::from_str(reason)
    }

    /// Records the output path chosen for the job.
    pub fn begin_output(&mut self, output_path: String)
        ensures
            final(self)@.0 == old(self)@.0,
            final(self)@.3 == Some(output_path@),
            final(self)@ == converting_job(old(self)@, output_path@),
    {
        self.progress = PROGRESS_CONVERTING;
        self.output_path = Some(output_path);
    }

    /// Records how the conversion ended, `Ok` with the output path or `Err`
    /// with the reason, and gives the message for the history.
    pub fn settle(&mut self, outcome: Result<String, String>) -> (message: String)
        ensures
            final(self)@.0 == old(self)@.0,
            final(self)@.2 == PROGRESS_DONE,
            outcome matches Ok(path) ==> final(self)@.1 == completed_status() && final(self)@.3 == Some(path@),
            outcome matches Err(error) ==> final(self)@.1 == failed_status() && final(self)@.4 == Some(error@),
            match outcome {
                Ok(path) => final(self)@ == completed_job(old(self)@, path@) && message@ == completed_message(),
                Err(error) => final(self)@ == failed_job(old(self)@, error@) && message@ == error@,
            },
    {
        proof {
            reveal_strlit("completed");
            reveal_strlit("failed");
            reveal_strlit("转换完成");
        }
        match outcome {
            Ok(path) => {
                let status = String::from_str("completed");
                assert(status@ =~= completed_status());
                self.status = status;
                self.progress = PROGRESS_DONE;
                self.output_path = Some(path);
                let message = "转换完成";
                assert(message@ =~= completed_message());
                String::from_str(message)
            },
            Err(error) => {
                let status = String::from_str("failed");
                assert(status@ =~= failed_status());
                self.status = status;
                self.progress = PROGRESS_DONE;
                let message = error.clone();
                self.error = Some(error);
                message
            },
        }
    }
}

/// What the batch learns about the current job's file from outside.
pub enum JobEvent {
    /// Whether the file is a WebP file.
    Checked(bool),
    /// The output path chosen for it, or why none could be chosen.
    OutputChosen(Result<String, String>),
    /// How converting it ended: the output path, or the reason it failed.
    Converted(Result<String, String>),
}

/// What the batch does next for the current job (after showing its new
/// state in the window).
pub enum JobAction {
    /// Choose an output path for the file.
    ChooseOutput,
    /// Convert the file into a GIF at this path.
    Convert(String),
    /// The job has finished: record it in the history with this message.
    Record(String),
}

impl ConversionJob {
    /// One step of a job in a batch: takes in what was learnt about its file
    /// and says what to do next. A file that is not WebP is refused; a WebP
    /// file gets an output path, then is converted; a job that cannot get an
    /// output path, and one whose conversion ends, is settled; a finished job
    /// is recorded in the history.
    pub fn advance(&mut self, event: JobEvent) -> (action: JobAction)
        ensures
            final(self)@.0 == old(self)@.0,
            match event {
                JobEvent::Checked(false) => {
                    &&& final(self)@ == rejected_job(old(self)@, not_webp_message())
                    &&& action matches JobAction::Record(message) && message@ == not_webp_message()
                },
                JobEvent::Checked(true) => final(self)@ == old(self)@ && action is ChooseOutput,
                JobEvent::OutputChosen(Ok(path)) => {
                    &&& final(self)@ == converting_job(old(self)@, path@)
                    &&& action matches JobAction::Convert(target) && target@ == path@
                },
                JobEvent::OutputChosen(Err(error)) => {
                    &&& final(self)@ == failed_job(old(self)@, error@)
                    &&& action matches JobAction::Record(message) && message@ == error@
                },
                JobEvent::Converted(Ok(path)) => {
                    &&& final(self)@ == completed_job(old(self)@, path@)
                    &&& action matches JobAction::Record(message) && message@ == completed_message()
                },
                JobEvent::Converted(Err(error)) => {
                    &&& final(self)@ == failed_job(old(self)@, error@)
                    &&& action matches JobAction::Record(message) && message@ == error@
                },
            },
    {
        match event {
            JobEvent::Checked(is_webp) => {
                if is_webp {
                    JobAction::ChooseOutput
                } else {
                    JobAction::Record(self.reject_not_webp())
                }
            },
            JobEvent::OutputChosen(Ok(path)) => {
                let target = path.clone();
                self.begin_output(path);
                JobAction::Convert(target)
            },
            JobEvent::OutputChosen(Err(error)) => JobAction::Record(self.settle(Err(error))),
            JobEvent::Converted(outcome) => JobAction::Record(self.settle(outcome)),
        }
    }
}

/// "请选择 WebP 文件" (please choose a WebP file): why a file was refused.
pub open spec fn not_webp_message() -> Seq<char> {
    seq!['请', '选', '择', ' ', 'W', 'e', 'b', 'P', ' ', '文', '件']
}

/// "转换完成" (conversion finished): the history message of a success.
pub open spec fn completed_message() -> Seq<char> {
    seq!['转', '换', '完', '成']
}

/// The job once its conversion has ended with `outcome`.
pub open spec fn settled_job(job: JobModel, outcome: Result<Seq<char>, Seq<char>>) -> JobModel {
    match outcome {
        Ok(path) => completed_job(job, path),
        Err(error) => failed_job(job, error),
    }
}

/// Law: no step of a job changes which file it is about.
pub proof fn law_job_steps_keep_the_file(job: JobModel, text: Seq<char>)
    ensures
        rejected_job(job, text).0 == job.0,
        converting_job(job, text).0 == job.0,
        completed_job(job, text).0 == job.0,
        failed_job(job, text).0 == job.0,
{
}

/// Law: a job that is given the output path `path`, or that completes with
/// the GIF at `path`, reports exactly `path` as its output; a job that
/// fails, or is refused, with a reason reports exactly that reason, and
/// failing keeps the output path it had.
pub proof fn law_jobs_report_their_outcome(job: JobModel, path: Seq<char>, reason: Seq<char>)
    ensures
        converting_job(job, path).3 == Some(path),
        completed_job(job, path).3 == Some(path),
        completed_job(job, path).1 == completed_status(),
        completed_job(job, path).2 == PROGRESS_DONE,
        failed_job(job, reason).4 == Some(reason),
        failed_job(job, reason).3 == job.3,
        failed_job(job, reason).1 == failed_status(),
        rejected_job(job, reason).4 == Some(reason),
        rejected_job(job, reason).1 == failed_status(),
        completed_status() != failed_status(),
{
    assert(completed_status().len() != failed_status().len());
}

/// Law: whichever way a job goes (refused as not WebP; or given an output
/// path and then finished either way; or finished without an output path),
/// its status and progress agree at every step, its progress never goes
/// down, and it ends finished at 100.
pub proof fn law_job_lifecycle(
    file_path: Seq<char>,
    output_path: Seq<char>,
    outcome: Result<Seq<char>, Seq<char>>,
)
    ensures
        ({
            let started = started_job(file_path);
            let rejected = rejected_job(started, not_webp_message());
            let converting = converting_job(started, output_path);
            &&& job_consistent(started)
            &&& job_consistent(rejected) && job_finished(rejected) && rejected.2 == PROGRESS_DONE
            &&& job_consistent(converting) && converting.2 >= started.2
            &&& job_consistent(settled_job(converting, outcome)) && job_finished(settled_job(converting, outcome))
                && settled_job(converting, outcome).2 >= converting.2
            &&& job_consistent(settled_job(started, outcome)) && job_finished(settled_job(started, outcome))
                && settled_job(started, outcome).2 >= started.2
        }),
{
}

#[verifier::external_type_specification]
#[verifier::external_body]
pub struct ExSystemTime(std::time::SystemTime);

/// `SystemTime::now`: the clock's current time. Nothing is stated of it; it
/// is public because `now_stamp`'s contract speaks of its answers.
#[verifier::external_body]
pub fn system_time_now() -> std::time::SystemTime {
    std::time::SystemTime::now()
}

/// `SystemTime::duration_since(UNIX_EPOCH)`: the time since 1970, or `None`
/// for a time before it. Public for the same reason.
#[verifier::external_body]
pub fn duration_since_unix_epoch(time: &std::time::SystemTime) -> Option<std::time::Duration> {
    time.duration_since(std::time::UNIX_EPOCH).ok()
}

/// `Duration::as_secs`: the whole seconds of a duration. Public for the same
/// reason.
#[verifier::external_body]
pub fn duration_whole_seconds(duration: &std::time::Duration) -> u64 {
    duration.as_secs()
}

/// A completion time as stored in the history: whole seconds since 1970 in decimal.
pub fn timestamp_text(seconds: u64) -> (r: String)
    ensures
        r@ == decimal_text(seconds as nat),
{
    let mut text = String::new();
    push_decimal(&mut text, seconds);
    text
}

/// The text of a completion time: whole seconds since 1970 in decimal, and
/// "0" for a time before 1970 (`None`).
pub open spec fn stamp_text(seconds_since_epoch: Option<u64>) -> Seq<char> {
    decimal_text(
        match seconds_since_epoch {
            Some(seconds) => seconds as nat,
            None => 0,
        },
    )
}

/// Law: the stored completion time tells clock readings apart: two
/// readings after 1970 give the same text only when they are the same
/// second, and a clock set before 1970 is stored as second 0.
pub proof fn law_stamp_tells_times_apart(a: u64, b: u64)
    ensures
        stamp_text(Some(a)) == stamp_text(Some(b)) <==> a == b,
        stamp_text(None) == stamp_text(Some(0)),
        stamp_text(Some(a)) == decimal_text(a as nat),
{
    if stamp_text(Some(a)) == stamp_text(Some(b)) {
        lemma_decimal_text_injective(a as nat, b as nat);
    }
}

/// The completion time stored for a clock reading `seconds_since_epoch`
/// (whole seconds since 1970, or `None` for a time before it): the seconds
/// in decimal, and "0" before 1970.
pub fn stamp_of_seconds(seconds_since_epoch: Option<u64>) -> (r: String)
    ensures
        r@ == stamp_text(seconds_since_epoch),
{
    match seconds_since_epoch {
        Some(seconds) => timestamp_text(seconds),
        None => timestamp_text(0),
    }
}

/// `seconds_since_epoch` is what reading the clock with `now`, then `since`
/// on its answer, then `seconds` on that answer's duration gave: the whole
/// seconds since 1970, or `None` where `since` found the time before 1970.
pub open spec fn clock_gave<N, S, A>(now: N, since: S, seconds: A, seconds_since_epoch: Option<u64>) -> bool where
    N: Fn() -> std::time::SystemTime,
    S: Fn(&std::time::SystemTime) -> Option<std::time::Duration>,
    A: Fn(&std::time::Duration) -> u64,
 {
    exists|time: std::time::SystemTime, elapsed: Option<std::time::Duration>|
        #![trigger call_ensures(now, (), time), call_ensures(since, (&time,), elapsed)]
        {
            &&& call_ensures(now, (), time)
            &&& call_ensures(since, (&time,), elapsed)
            &&& match elapsed {
                None => seconds_since_epoch is None,
                Some(duration) => seconds_since_epoch matches Some(whole) && call_ensures(
                    seconds,
                    (&duration,),
                    whole,
                ),
            }
        }
}

/// What this process's clock gave when read: `SystemTime::now`, then
/// `duration_since(UNIX_EPOCH)`, then `as_secs`.
pub open spec fn clock_reading(seconds_since_epoch: Option<u64>) -> bool {
    clock_gave(system_time_now, duration_since_unix_epoch, duration_whole_seconds, seconds_since_epoch)
}

/// Reads the clock: the time from `now`, its distance from 1970 from
/// `since`, and that distance's whole seconds from `seconds`.
fn read_clock<N, S, A>(now: N, since: S, seconds: A) -> (r: Option<u64>) where
    N: Fn() -> std::time::SystemTime,
    S: Fn(&std::time::SystemTime) -> Option<std::time::Duration>,
    A: Fn(&std::time::Duration) -> u64,

    requires
        now.requires(()),
        forall|time: &std::time::SystemTime| #[trigger] since.requires((time,)),
        forall|duration: &std::time::Duration| #[trigger] seconds.requires((duration,)),
    ensures
        clock_gave(now, since, seconds, r),
{
    let time = now();
    let elapsed = since(&time);
    match elapsed {
        Some(duration) => {
            let whole = seconds(&duration);
            assert(call_ensures(now, (), time) && call_ensures(since, (&time,), Some(duration)));
            Some(whole)
        },
        None => {
            assert(call_ensures(now, (), time) && call_ensures(since, (&time,), None::<std::time::Duration>));
            None
        },
    }
}

/// The current time as stored in the history: the whole seconds since 1970
/// that the clock gives during the call, in decimal, or "0" where the clock
/// is set before 1970.
pub fn now_stamp() -> (r: String)
    ensures
        exists|seconds_since_epoch: Option<u64>|
            clock_reading(seconds_since_epoch) && r@ == #[trigger] stamp_text(seconds_since_epoch),
{
    let seconds_since_epoch = read_clock(system_time_now, duration_since_unix_epoch, duration_whole_seconds);
    stamp_of_seconds(seconds_since_epoch)
}

/// The history entry for a finished job: its file, output path and status,
/// the message, and the current time.
pub fn history_entry(job: &ConversionJob, message: &str) -> (r: HistoryEntry)
    ensures
        r@.0 == job@.0,
        r@.1 == job@.3,
        r@.2 == job@.1,
        r@.3 == message@,
        exists|seconds_since_epoch: Option<u64>|
            clock_reading(seconds_since_epoch) && r@.4 == #[trigger] stamp_text(seconds_since_epoch),
{
    let output_path = match &job.output_path {
        Some(path) => Some(path.clone()),
        None => None,
    };
    HistoryEntry {
        file_path: job.file_path.clone(),
        output_path,
        status: job.status.clone(),
        message: String::from_str(message),
        completed_at: now_stamp(),
    }
}

} // verus!
