//! Applying a record locally: resolving the target name, deciding whether a
//! pull is owed before the deploy, the deploy command line, the local state
//! of an artifact for the listing, and the age buckets a record's timestamp
//! falls into. Host-name lookup, existence checks and the subprocesses run
//! outside; every decision here is a function of plain values.

use vstd::prelude::*;

verus! {

use vstd::string::StringExecFns;
use crate::sync::argv_chars;
use crate::clock::now_epoch_seconds;

/// The name that stands for "this machine's host name".
pub open spec fn hostname_sentinel() -> Seq<char> {
    "$HOSTNAME"@
}

/// The name a record is resolved under: the sentinel means the host name the
/// lookup supplied; anything else stands for itself.
pub fn resolve_target_name(name: &String, hostname: &String) -> (r: String)
    ensures
        name@ == hostname_sentinel() ==> r@ == hostname@,
        name@ != hostname_sentinel() ==> r@ == name@,
{
    let sentinel = "$HOSTNAME".to_owned();
    if *name == sentinel {
        hostname.clone()
    } else {
        name.clone()
    }
}

/// Whether a pull is owed before the deploy.
pub enum ApplyPlan {
    /// The artifact is present in the local store: deploy at once.
    DeployOnly,
    /// The artifact is absent: pull it from the public cache first, and only
    /// deploy when the pull succeeded.
    PullThenDeploy,
}

/// The plan, from the local existence check on the artifact's locator.
pub fn apply_plan(artifact_present: bool) -> (r: ApplyPlan)
    ensures
        artifact_present <==> r is DeployOnly,
{
    if artifact_present {
        ApplyPlan::DeployOnly
    } else {
        ApplyPlan::PullThenDeploy
    }
}

/// The full command line that deploys one artifact under elevation: the
/// helper gets the locator as its sole argument, and the elevation reads the
/// credential from its input.
pub fn deploy_argv(helper: &str, store_hash: &str) -> (r: Vec<String>)
    ensures
        argv_chars(r@) == seq!["sudo"@, "-S"@, helper@, store_hash@],
{
    let mut out: Vec<String> = Vec::new();
    out.push("sudo".to_owned());
    out.push("-S".to_owned());
    out.push(helper.to_owned());
    out.push(store_hash.to_owned());
    proof {
        assert(argv_chars(out@) =~= seq!["sudo"@, "-S"@, helper@, store_hash@]);
    }
    out
}

/// How an artifact stands on this machine, for the listing.
pub enum ArtifactState {
    /// Neither running nor in the local store.
    Absent,
    /// In the local store, but not what the machine runs.
    Cached,
    /// What the machine runs now; this wins over mere presence.
    Running,
}

/// The listing annotation: running wins over cached, cached over absent.
pub fn artifact_state(present: bool, is_current: bool) -> (r: ArtifactState)
    ensures
        is_current <==> r is Running,
        !is_current && present <==> r is Cached,
        !is_current && !present <==> r is Absent,
{
    if is_current {
        ArtifactState::Running
    } else if present {
        ArtifactState::Cached
    } else {
        ArtifactState::Absent
    }
}

/// The age bucket a record's timestamp falls into, against a given reading
/// of the clock. Each bucket carries the count it is displayed with.
#[derive(Clone, Copy, Debug, PartialEq, Eq, Structural)]
pub enum AgeBucket {
    /// Under a minute old: shown in seconds.
    Seconds(i64),
    /// Under an hour: shown in minutes.
    Minutes(i64),
    /// Under a day: shown in hours.
    Hours(i64),
    /// Under a week: shown in days.
    DaysRecent(i64),
    /// Under thirty days: shown in days, more urgently.
    DaysOld(i64),
    /// Older still: shown as the absolute date.
    Older,
}

/// The clock readings the bucket arithmetic is defined on; outside them the
/// difference would overflow the machine integers.
pub open spec fn clock_in_range(t: int) -> bool {
    -0x2000_0000_0000_0000 < t < 0x2000_0000_0000_0000
}

/// The bucket for a timestamp `added` seen at time `now`, both in seconds
/// since the Unix epoch. A timestamp in the future counts as seconds old.
pub open spec fn age_bucket_spec(now: int, added: int) -> AgeBucket {
    let d = now - added;
    if d < 60 {
        AgeBucket::Seconds(d as i64)
    } else if d / 60 < 60 {
        AgeBucket::Minutes((d / 60) as i64)
    } else if d / 3600 < 24 {
        AgeBucket::Hours((d / 3600) as i64)
    } else if d / 86400 < 7 {
        AgeBucket::DaysRecent((d / 86400) as i64)
    } else if d / 86400 < 30 {
        AgeBucket::DaysOld((d / 86400) as i64)
    } else {
        AgeBucket::Older
    }
}

/// Computes the age bucket for one timestamp against one clock reading.
pub fn age_bucket(now: i64, added: i64) -> (r: AgeBucket)
    requires
        clock_in_range(now as int),
        clock_in_range(added as int),
    ensures
        r == age_bucket_spec(now as int, added as int),
{
    let d: i64 = now - added;
    if d < 60 {
        AgeBucket::Seconds(d)
    } else if d / 60 < 60 {
        AgeBucket::Minutes(d / 60)
    } else if d / 3600 < 24 {
        AgeBucket::Hours(d / 3600)
    } else if d / 86400 < 7 {
        AgeBucket::DaysRecent(d / 86400)
    } else if d / 86400 < 30 {
        AgeBucket::DaysOld(d / 86400)
    } else {
        AgeBucket::Older
    }
}

/// The age bucket against the clock as it reads now. `None` when the clock
/// reading, or the timestamp, lies outside the defined range.
pub fn current_age(added: i64) -> (r: Option<AgeBucket>)
    ensures
        r matches Some(b) ==> exists|now: int|
            clock_in_range(now) && clock_in_range(added as int)
            && b == age_bucket_spec(now, added as int),
{
    let now = now_epoch_seconds();
    let bound: i64 = 0x2000_0000_0000_0000;
    if -bound < now && now < bound && -bound < added && added < bound {
        let b = age_bucket(now, added);
        proof {
            assert(clock_in_range(now as int) && clock_in_range(added as int)
                && b == age_bucket_spec(now as int, added as int));
        }
        Some(b)
    } else {
        None
    }
}

} // verus!
