//! The mirror driver's control flow as a state machine: pagination through an
//! organization's repository listing, rate-limit backoff per fetch attempt,
//! the per-record eligibility filter, and the shallow-clone command. A runner
//! performs the network requests, the folder lookups, the sleeps and the
//! clone subprocess, and hands each outcome back to the driver, which decides
//! every step here.
use vstd::prelude::*;

verus! {

use vstd::arithmetic::power2::pow2;
use vstd::string::StringExecFns;
use crate::backoff::MAX_RETRY_EXPONENT;
use crate::backoff::calculate_delay;
use crate::backoff::is_rate_limit_status;
use crate::numerals::all_digits;
use crate::numerals::digit_val;
use crate::numerals::digits_val;
use crate::numerals::u32_to_decimal;
use crate::timestamp::age_days;
use crate::timestamp::age_days_spec;
use crate::timestamp::parse_rfc3339_secs;
use crate::timestamp::rfc3339_timestamp;

/// Seconds the runner waits after each handled record, whether it was
/// skipped, filtered out or cloned: a fixed courtesy delay.
pub const PACING_SECONDS: u64 = 5;

/// One repository as the listing reports it: its name, the branch a shallow
/// clone checks out, whether it is a fork, and the text of its last-update
/// timestamp.
pub struct RepoRecord {
    pub name: String,
    pub default_branch: String,
    pub fork: bool,
    pub updated_at: String,
}

/// The clone URL of a repository: `https://github.com/<org>/<name>.git`.
pub open spec fn clone_url_spec(org: Seq<char>, name: Seq<char>) -> Seq<char> {
    "https://github.com/"@ + org + "/"@ + name + ".git"@
}

/// The local destination of a repository: `<folder>/<name>`.
pub open spec fn dest_path_spec(folder: Seq<char>, name: Seq<char>) -> Seq<char> {
    folder + "/"@ + name
}

/// The arguments handed to the version-control client for one clone:
/// a shallow clone of the record's branch into its destination folder.
pub open spec fn clone_argv_spec(
    org: Seq<char>,
    name: Seq<char>,
    branch: Seq<char>,
    folder: Seq<char>,
) -> Seq<Seq<char>> {
    seq![
        "clone"@,
        "--depth=1"@,
        "--branch="@ + branch,
        clone_url_spec(org, name),
        dest_path_spec(folder, name),
    ]
}

/// Builds the clone URL of a repository.
pub fn clone_url(org: &str, name: &str) -> (r: String)
    ensures
        r@ == clone_url_spec(org@, name@),
{
    let mut u: String = "https://github.com/".to_owned();
    u.append(org);
    u.append("/");
    u.append(name);
    u.append(".git");
    proof {
        assert(u@ =~= clone_url_spec(org@, name@));
    }
    u
}

/// Builds the local destination path of a repository.
pub fn dest_path(folder: &str, name: &str) -> (r: String)
    ensures
        r@ == dest_path_spec(folder@, name@),
{
    let mut p: String = folder.to_owned();
    p.append("/");
    p.append(name);
    proof {
        assert(p@ =~= dest_path_spec(folder@, name@));
    }
    p
}

/// Builds the argument list of one clone invocation.
pub fn clone_command(org: &str, name: &str, branch: &str, folder: &str) -> (r: Vec<String>)
    ensures
        r.deep_view() == clone_argv_spec(org@, name@, branch@, folder@),
{
    let mut v: Vec<String> = Vec::new();
    v.push("clone".to_owned());
    v.push("--depth=1".to_owned());
    let mut b: String = "--branch=".to_owned();
    b.append(branch);
    v.push(b);
    v.push(clone_url(org, name));
    v.push(dest_path(folder, name));
    proof {
        assert(v.deep_view() =~~= clone_argv_spec(org@, name@, branch@, folder@));
    }
    v
}

/// The URL of one page of the organization's repository listing:
/// `https://api.github.com/orgs/<org>/repos?per_page=100&page=` followed by
/// the decimal page number.
pub open spec fn page_url_prefix(org: Seq<char>) -> Seq<char> {
    "https://api.github.com/orgs/"@ + org + "/repos?per_page=100&page="@
}

/// Builds the URL of one listing page: the fixed prefix for the organization,
/// then the page number in decimal with no leading zero.
pub fn page_url(org: &str, page: u32) -> (r: String)
    ensures
        r@.len() > page_url_prefix(org@).len(),
        r@.take(page_url_prefix(org@).len() as int) == page_url_prefix(org@),
        all_digits(r@.skip(page_url_prefix(org@).len() as int)),
        digits_val(r@.skip(page_url_prefix(org@).len() as int)) == page,
        r@.skip(page_url_prefix(org@).len() as int).len() > 1 ==> digit_val(
            r@[page_url_prefix(org@).len() as int],
        ) != 0,
{
    let mut u: String = "https://api.github.com/orgs/".to_owned();
    u.append(org);
    u.append("/repos?per_page=100&page=");
    let digits: String = u32_to_decimal(page);
    let ghost prefix: Seq<char> = u@;
    u.append(digits.as_str());
    proof {
        assert(prefix =~= page_url_prefix(org@));
        assert(u@.take(prefix.len() as int) =~= prefix);
        assert(u@.skip(prefix.len() as int) =~= digits@);
    }
    u
}

/// What one repository record calls for, at specification level.
pub enum StepSpec {
    /// The destination folder already exists: the record is skipped with a
    /// notice, and nothing else happens for it.
    SkipExisting { name: Seq<char> },
    /// The record is eligible: the runner invokes the version-control client
    /// with exactly `argv`.
    Clone { name: Seq<char>, argv: Seq<Seq<char>> },
    /// The record fails the fork or recency filter: no action, no notice.
    Filtered,
    /// The record's update timestamp does not parse: the whole run aborts.
    Fatal,
}

/// What one repository record calls for, as handed to the runner.
pub enum RecordStep {
    SkipExisting { name: String },
    RunClone { name: String, command: Vec<String> },
    Filtered,
    FatalTimestamp,
}

/// The specification-level reading of a step handed to the runner.
pub open spec fn step_view(s: RecordStep) -> StepSpec {
    match s {
        RecordStep::SkipExisting { name } => StepSpec::SkipExisting { name: name@ },
        RecordStep::RunClone { name, command } => StepSpec::Clone {
            name: name@,
            argv: command.deep_view(),
        },
        RecordStep::Filtered => StepSpec::Filtered,
        RecordStep::FatalTimestamp => StepSpec::Fatal,
    }
}

/// The driver's whole decision for one repository record. The existence check
/// on the destination folder comes first and alone decides a skip; only then
/// is the update timestamp read, and a record is cloned exactly when it is no
/// fork and its age in whole days lies strictly under the threshold.
pub open spec fn record_step_spec(
    rec: RepoRecord,
    exists: bool,
    now: int,
    org: Seq<char>,
    folder: Seq<char>,
    threshold: int,
) -> StepSpec {
    if exists {
        StepSpec::SkipExisting { name: rec.name@ }
    } else {
        match rfc3339_timestamp(rec.updated_at@) {
            Option::None => StepSpec::Fatal,
            Option::Some(updated) => {
                if !rec.fork && age_days_spec(now, updated as int) < threshold {
                    StepSpec::Clone {
                        name: rec.name@,
                        argv: clone_argv_spec(org, rec.name@, rec.default_branch@, folder),
                    }
                } else {
                    StepSpec::Filtered
                }
            },
        }
    }
}

/// Where the run stands.
pub enum Phase {
    /// Page `page` is to be fetched; `retries` rate-limit retries of this
    /// same fetch have already been waited out.
    Fetch { page: u32, retries: u32 },
    /// Page `page` was fetched and decoded non-empty; its records are being
    /// handled one by one.
    Process { page: u32 },
    /// A page decoded to an empty list: the run is complete.
    Done,
    /// A record's timestamp did not parse, or the page counter was exhausted:
    /// the run is aborted.
    Failed,
}

/// The next retry count: one more than before, held at the largest count
/// whose backoff delay still fits in a `u64`.
pub open spec fn retry_bump(retries: u32) -> u32 {
    if retries < MAX_RETRY_EXPONENT {
        (retries + 1) as u32
    } else {
        retries
    }
}

/// The mirror driver: the run's arguments and its current position. The
/// runner asks `pending_page` what to fetch, reports each response status to
/// `on_status`, each decoded page to `on_page`, and, record by record, the
/// destination folder's existence to `on_folder_checked`, performing the
/// steps the driver hands back.
pub struct Driver {
    pub org: String,
    pub folder: String,
    pub days_threshold: i64,
    pub phase: Phase,
    pub records: Vec<RepoRecord>,
    pub next: usize,
}

/// The page the runner is to fetch now, if any.
pub open spec fn pending_page_spec(d: Driver) -> Option<u32> {
    match d.phase {
        Phase::Fetch { page, .. } => Some(page),
        _ => None,
    }
}

impl Driver {
    /// The driver's invariant: page numbers start at one, the retry counter
    /// stays within the range the backoff delay admits, and while a page is
    /// being processed there is a current record.
    pub open spec fn wf(self) -> bool {
        match self.phase {
            Phase::Fetch { page, retries } => 1 <= page && retries <= MAX_RETRY_EXPONENT,
            Phase::Process { page } => 1 <= page && self.next < self.records.len(),
            Phase::Done => true,
            Phase::Failed => true,
        }
    }

    /// A fresh run over `org`, mirroring into `folder` every repository
    /// updated within `days_threshold` days: it starts at page one with no
    /// retries waited.
    pub fn new(org: String, folder: String, days_threshold: i64) -> (d: Driver)
        ensures
            d.wf(),
            d.org == org,
            d.folder == folder,
            d.days_threshold == days_threshold,
            d.phase == (Phase::Fetch { page: 1u32, retries: 0u32 }),
    {
        Driver {
            org,
            folder,
            days_threshold,
            phase: Phase::Fetch { page: 1, retries: 0 },
            records: Vec::new(),
            next: 0,
        }
    }

    /// The page to fetch now: one is pending exactly until the run is done,
    /// has failed, or a page is still being processed.
    pub fn pending_page(&self) -> (r: Option<u32>)
        ensures
            r == pending_page_spec(*self),
    {
        match &self.phase {
            Phase::Fetch { page, .. } => Some(*page),
            _ => None,
        }
    }

    /// Decide on the HTTP status of a page response. A rate-limit status
    /// (403 or 429) asks the runner to sleep for the returned backoff —
    /// `30 * 2^n` seconds on the `n`-th retry of this same fetch — and then
    /// re-issue the identical request; any other status is accepted as-is and
    /// its body decoded.
    pub fn on_status(&mut self, status: u16) -> (r: Option<u64>)
        requires
            old(self).wf(),
            old(self).phase is Fetch,
        ensures
            final(self).wf(),
            final(self).org == old(self).org,
            final(self).folder == old(self).folder,
            final(self).days_threshold == old(self).days_threshold,
            final(self).records == old(self).records,
            final(self).next == old(self).next,
            (status == 403 || status == 429) ==> ({
                &&& old(self).phase matches Phase::Fetch { page, retries }
                &&& final(self).phase == (Phase::Fetch { page, retries: retry_bump(retries) })
                &&& r matches Some(d) && d == 30 * pow2(retry_bump(retries) as nat)
            }),
            !(status == 403 || status == 429) ==> final(self).phase == old(self).phase && r
                is None,
    {
        let retryable: bool = is_rate_limit_status(status);
        if retryable {
            let (page, bumped): (u32, u32) = match &self.phase {
                Phase::Fetch { page, retries } => {
                    let n: u32 = if *retries < MAX_RETRY_EXPONENT {
                        *retries + 1
                    } else {
                        *retries
                    };
                    (*page, n)
                },
                _ => (0, 0),
            };
            let delay: u64 = calculate_delay(bumped);
            self.phase = Phase::Fetch { page, retries: bumped };
            Some(delay)
        } else {
            None
        }
    }

    /// Accept a decoded page. An empty page ends the run at once — no later
    /// page is requested; a non-empty page is taken up for processing at its
    /// first record.
    pub fn on_page(&mut self, records: Vec<RepoRecord>)
        requires
            old(self).wf(),
            old(self).phase is Fetch,
        ensures
            final(self).wf(),
            final(self).org == old(self).org,
            final(self).folder == old(self).folder,
            final(self).days_threshold == old(self).days_threshold,
            records@.len() == 0 ==> final(self).phase == Phase::Done,
            records@.len() > 0 ==> ({
                &&& old(self).phase matches Phase::Fetch { page, .. }
                &&& final(self).phase == (Phase::Process { page })
                &&& final(self).records == records
                &&& final(self).next == 0
            }),
    {
        if records.len() == 0 {
            self.phase = Phase::Done;
        } else {
            let page: u32 = match &self.phase {
                Phase::Fetch { page, .. } => *page,
                _ => 0,
            };
            self.records = records;
            self.next = 0;
            self.phase = Phase::Process { page };
        }
    }

    /// The record to handle next, while a page is being processed.
    pub fn next_record(&self) -> (r: Option<&RepoRecord>)
        requires
            self.wf(),
        ensures
            match self.phase {
                Phase::Process { .. } => r matches Some(rec) && *rec == self.records[
                    self.next as int
                ],
                _ => r is None,
            },
    {
        match &self.phase {
            Phase::Process { .. } => Some(&self.records[self.next]),
            _ => None,
        }
    }

    /// Handle the current record, given whether its destination folder
    /// already exists and the current time in epoch seconds. The returned
    /// step is everything owed for this record; the driver then stands at the
    /// next record — or at the fetch of the following page when this record
    /// was the page's last, with the retry counter starting afresh — or at
    /// `Failed` when the record's timestamp does not parse. After performing
    /// the step the runner waits `PACING_SECONDS` seconds.
    pub fn on_folder_checked(&mut self, exists: bool, now_secs: i64) -> (r: RecordStep)
        requires
            old(self).wf(),
            old(self).phase is Process,
        ensures
            final(self).wf(),
            final(self).org == old(self).org,
            final(self).folder == old(self).folder,
            final(self).days_threshold == old(self).days_threshold,
            final(self).records == old(self).records,
            ({
                let rec = old(self).records[old(self).next as int];
                let step = record_step_spec(
                    rec,
                    exists,
                    now_secs as int,
                    old(self).org@,
                    old(self).folder@,
                    old(self).days_threshold as int,
                );
                &&& old(self).phase matches Phase::Process { page }
                &&& step_view(r) == step
                &&& (if step is Fatal {
                    final(self).phase == Phase::Failed && final(self).next == old(self).next
                } else {
                    &&& final(self).next == old(self).next + 1
                    &&& (if old(self).next + 1 < old(self).records.len() {
                        final(self).phase == old(self).phase
                    } else if page < 0xffff_ffffu32 {
                        final(self).phase == (Phase::Fetch { page: (page + 1) as u32, retries: 0u32 })
                    } else {
                        final(self).phase == Phase::Failed
                    })
                })
            }),
    {
        let page: u32 = match &self.phase {
            Phase::Process { page } => *page,
            _ => 0,
        };
        let rec: &RepoRecord = &self.records[self.next];
        let name: String = rec.name.clone();
        let branch: String = rec.default_branch.clone();
        let fork: bool = rec.fork;
        let updated: String = rec.updated_at.clone();
        let step: RecordStep = if exists {
            RecordStep::SkipExisting { name }
        } else {
            match parse_rfc3339_secs(updated.as_str()) {
                None => RecordStep::FatalTimestamp,
                Some(updated_secs) => {
                    let age: i64 = age_days(now_secs, updated_secs);
                    if !fork && age < self.days_threshold {
                        let command: Vec<String> = clone_command(
                            self.org.as_str(),
                            name.as_str(),
                            branch.as_str(),
                            self.folder.as_str(),
                        );
                        RecordStep::RunClone { name, command }
                    } else {
                        RecordStep::Filtered
                    }
                },
            }
        };
        if matches!(step, RecordStep::FatalTimestamp) {
            self.phase = Phase::Failed;
        } else {
            self.next = self.next + 1;
            if self.next == self.records.len() {
                if page < 0xffff_ffffu32 {
                    self.phase = Phase::Fetch { page: page + 1, retries: 0 };
                } else {
                    self.phase = Phase::Failed;
                }
            }
        }
        step
    }
}

/// A repository whose destination folder already exists is only ever
/// skipped, with its notice: whatever its fork flag, its timestamp text or
/// the threshold, no clone happens and the timestamp is not even read.
pub proof fn lemma_existing_folder_only_skips(
    rec: RepoRecord,
    now: int,
    org: Seq<char>,
    folder: Seq<char>,
    threshold: int,
)
    ensures
        record_step_spec(rec, true, now, org, folder, threshold) == (StepSpec::SkipExisting {
            name: rec.name@,
        }),
{
}

/// A fork is never cloned: no step of a record with the fork flag set is a
/// clone, whether or not its folder exists and whatever its age.
pub proof fn lemma_fork_never_cloned(
    rec: RepoRecord,
    exists: bool,
    now: int,
    org: Seq<char>,
    folder: Seq<char>,
    threshold: int,
)
    requires
        rec.fork,
    ensures
        !(record_step_spec(rec, exists, now, org, folder, threshold) is Clone),
{
}

/// A record is cloned exactly when its folder is absent, it is no fork, its
/// timestamp parses, and its age in whole days lies strictly under the
/// threshold; the clone then carries exactly the shallow-clone arguments for
/// the record's branch, URL and destination.
pub proof fn lemma_clone_exactly_when_eligible(
    rec: RepoRecord,
    exists: bool,
    now: int,
    org: Seq<char>,
    folder: Seq<char>,
    threshold: int,
)
    ensures
        (record_step_spec(rec, exists, now, org, folder, threshold) is Clone) <==> (!exists
            && !rec.fork && rfc3339_timestamp(rec.updated_at@) is Some && age_days_spec(
            now,
            rfc3339_timestamp(rec.updated_at@)->0 as int,
        ) < threshold),
        (record_step_spec(rec, exists, now, org, folder, threshold) is Clone)
            ==> record_step_spec(rec, exists, now, org, folder, threshold) == (StepSpec::Clone {
            name: rec.name@,
            argv: clone_argv_spec(org, rec.name@, rec.default_branch@, folder),
        }),
{
}

/// Once a page has decoded to an empty list the run is done, and a driver
/// that is done has no pending page: no page beyond the first empty one is
/// ever requested.
pub proof fn lemma_done_requests_nothing(d: Driver)
    requires
        d.phase is Done,
    ensures
        pending_page_spec(d) is None,
{
}

/// Re-running after a completed run is idempotent at the granularity of
/// whole repositories: every destination folder then already exists, so every
/// record of every page is only skipped and no clone is invoked.
pub proof fn lemma_rerun_clones_nothing(
    records: Seq<RepoRecord>,
    now: int,
    org: Seq<char>,
    folder: Seq<char>,
    threshold: int,
)
    ensures
        forall|i: int|
            0 <= i < records.len() ==> !(#[trigger] record_step_spec(
                records[i],
                true,
                now,
                org,
                folder,
                threshold,
            ) is Clone),
{
}

} // verus!
