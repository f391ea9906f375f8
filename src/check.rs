use vstd::prelude::*;
use crate::manifest::{song_url, url_of, Manifest};

verus! {

/// A track to probe: its display name and its resolved URL.
#[derive(Debug, Clone, PartialEq, Eq)]
pub struct Target {
    pub name: String,
    pub url: String,
}

/// What one probe of a URL found.
#[derive(Debug, Clone, PartialEq, Eq)]
pub enum Outcome {
    Success,
    /// The URL could not be reached; the reason is for people to read.
    Failure(String),
}

/// The outcome of probing one track's URL.
#[derive(Debug, Clone, PartialEq, Eq)]
pub struct CheckResult {
    pub url: String,
    pub outcome: Outcome,
}

/// The consolidated verdict of a check.
#[derive(Debug, Clone, Copy, PartialEq, Eq)]
pub enum Verdict {
    Pass,
    Fail,
}

/// Every probe's result, in the order of the tracks, and the verdict over them.
#[derive(Debug, Clone, PartialEq, Eq)]
pub struct CheckReport {
    pub results: Vec<CheckResult>,
    pub overall: Verdict,
}

/// Why a check could not be run at all, as opposed to a track being unreachable.
#[derive(Debug, Clone, Copy, PartialEq, Eq)]
pub enum CheckError {
    /// A probe task ended abnormally, so its track has no result.
    InfrastructureFailure,
}

/// The targets of a manifest: one per track, in order, each URL resolved
/// against the manifest's prefix.
pub open spec fn targets_match(m: Manifest, ts: Seq<Target>) -> bool {
    &&& ts.len() == m.songs@.len()
    &&& forall|i: int|
        0 <= i < ts.len() ==> (#[trigger] ts[i]).name@ == m.songs@[i].name@ && ts[i].url@ == url_of(
            m.prefix@,
            m.songs@[i].path@,
        )
}

/// The targets to probe for `m`: every track, duplicates and empty paths
/// included, in the manifest's order.
pub fn check_targets(m: &Manifest) -> (r: Vec<Target>)
    ensures
        targets_match(*m, r@),
{
    let mut r: Vec<Target> = Vec::new();
    let mut i: usize = 0;
    while i < m.songs.len()
        invariant
            i <= m.songs.len(),
            r@.len() == i,
            forall|j: int|
                0 <= j < i ==> (#[trigger] r@[j]).name@ == m.songs@[j].name@ && r@[j].url@ == url_of(
                    m.prefix@,
                    m.songs@[j].path@,
                ),
        decreases m.songs.len() - i,
    {
        let song = &m.songs[i];
        let url = song_url(m.prefix.as_str(), song.path.as_str());
        r.push(Target { name: song.name.clone(), url });
        i = i + 1;
    }
    r
}

impl Outcome {
    pub fn is_failure(&self) -> (r: bool)
        ensures
            r == self is Failure,
    {
        match self {
            Outcome::Success => false,
            Outcome::Failure(_) => true,
        }
    }

    pub fn duplicate(&self) -> (r: Outcome)
        ensures
            r == *self,
    {
        match self {
            Outcome::Success => Outcome::Success,
            Outcome::Failure(reason) => Outcome::Failure(reason.clone()),
        }
    }
}

impl CheckResult {
    pub fn duplicate(&self) -> (r: CheckResult)
        ensures
            r == *self,
    {
        CheckResult { url: self.url.clone(), outcome: self.outcome.duplicate() }
    }
}

/// Whether any of `rs` is a failure.
pub open spec fn has_failure(rs: Seq<CheckResult>) -> bool {
    exists|i: int| 0 <= i < rs.len() && (#[trigger] rs[i]).outcome is Failure
}

/// The verdict over `rs`: a failure anywhere fails the whole check.
pub open spec fn verdict_of(rs: Seq<CheckResult>) -> Verdict {
    if has_failure(rs) {
        Verdict::Fail
    } else {
        Verdict::Pass
    }
}

/// The URLs of the failed results of `rs`, in order.
pub open spec fn failed_urls_of(rs: Seq<CheckResult>) -> Seq<Seq<char>>
    decreases rs.len(),
{
    if rs.len() == 0 {
        Seq::empty()
    } else if rs.last().outcome is Failure {
        failed_urls_of(rs.drop_last()).push(rs.last().url@)
    } else {
        failed_urls_of(rs.drop_last())
    }
}

/// Builds the report of a check from every probe's result.
pub fn build_report(results: Vec<CheckResult>) -> (r: CheckReport)
    ensures
        r.results@ == results@,
        r.overall == verdict_of(results@),
{
    let mut failed = false;
    let mut i: usize = 0;
    while i < results.len()
        invariant
            i <= results.len(),
            failed == has_failure(results@.take(i as int)),
        decreases results.len() - i,
    {
        proof {
            let t = results@.take(i as int + 1);
            assert(t.drop_last() =~= results@.take(i as int));
            assert(forall|j: int| 0 <= j < i ==> t[j] == results@.take(i as int)[j]);
            assert(t[i as int] == results@[i as int]);
        }
        if results[i].outcome.is_failure() {
            failed = true;
        }
        i = i + 1;
    }
    assert(results@.take(results.len() as int) =~= results@);
    let overall = if failed {
        Verdict::Fail
    } else {
        Verdict::Pass
    };
    CheckReport { results, overall }
}

/// Whether every probe task came back.
pub open spec fn all_finished(joined: Seq<Option<CheckResult>>) -> bool {
    forall|i: int| 0 <= i < joined.len() ==> (#[trigger] joined[i]) is Some
}

/// The results carried by `joined`, in order.
pub open spec fn finished_results(joined: Seq<Option<CheckResult>>) -> Seq<CheckResult> {
    joined.map_values(|o: Option<CheckResult>| o->Some_0)
}

/// Joins the outcomes of the probe tasks, one per track in order (`None` where
/// a task ended abnormally), into a report. A missing outcome is a fault of
/// the check itself and aborts it; an unreachable track is only a failure in
/// the report.
pub fn collect_report(joined: &Vec<Option<CheckResult>>) -> (r: Result<CheckReport, CheckError>)
    ensures
        r is Err <==> !all_finished(joined@),
        r is Err ==> r->Err_0 == CheckError::InfrastructureFailure,
        r is Ok ==> r->Ok_0.results@ == finished_results(joined@) && r->Ok_0.overall == verdict_of(
            finished_results(joined@),
        ),
{
    let mut results: Vec<CheckResult> = Vec::new();
    let mut i: usize = 0;
    while i < joined.len()
        invariant
            i <= joined.len(),
            all_finished(joined@.take(i as int)),
            results@ == finished_results(joined@.take(i as int)),
        decreases joined.len() - i,
    {
        proof {
            let t = joined@.take(i as int + 1);
            assert(t.drop_last() =~= joined@.take(i as int));
        }
        match &joined[i] {
            Some(res) => {
                results.push(res.duplicate());
                proof {
                    assert(results@ =~= finished_results(joined@.take(i as int + 1)));
                    assert(all_finished(joined@.take(i as int + 1)));
                }
            },
            None => {
                assert(joined@.take(i as int + 1)[i as int] is None);
                return Err(CheckError::InfrastructureFailure);
            },
        }
        i = i + 1;
    }
    assert(joined@.take(joined.len() as int) =~= joined@);
    Ok(build_report(results))
}

impl CheckReport {
    /// The URLs of the tracks that could not be reached, in order.
    pub fn failed_urls(&self) -> (r: Vec<String>)
        ensures
            r@.map_values(|s: String| s@) == failed_urls_of(self.results@),
    {
        let mut r: Vec<String> = Vec::new();
        let mut i: usize = 0;
        while i < self.results.len()
            invariant
                i <= self.results.len(),
                r@.map_values(|s: String| s@) == failed_urls_of(self.results@.take(i as int)),
            decreases self.results.len() - i,
        {
            let res = &self.results[i];
            proof {
                let t = self.results@.take(i as int + 1);
                assert(t.drop_last() =~= self.results@.take(i as int));
            }
            if res.outcome.is_failure() {
                r.push(res.url.clone());
            }
            proof {
                assert(r@.map_values(|s: String| s@) =~= failed_urls_of(
                    self.results@.take(i as int + 1),
                ));
            }
            i = i + 1;
        }
        assert(self.results@.take(self.results.len() as int) =~= self.results@);
        r
    }

    /// The process exit status of a check: 0 when it passed, 1 when it failed.
    pub fn exit_code(&self) -> (r: i32)
        ensures
            r == (if self.overall == Verdict::Pass { 0i32 } else { 1i32 }),
    {
        match self.overall {
            Verdict::Pass => 0,
            Verdict::Fail => 1,
        }
    }
}

/// A check fails exactly when its report names at least one unreachable URL,
/// and it names one URL for each failed result, never one for a success.
pub proof fn lemma_fail_iff_urls_reported(rs: Seq<CheckResult>)
    ensures
        (verdict_of(rs) == Verdict::Fail) <==> failed_urls_of(rs).len() > 0,
        failed_urls_of(rs).len() == rs.filter(|r: CheckResult| r.outcome is Failure).len(),
    decreases rs.len(),
{
    reveal(Seq::filter);
    if rs.len() > 0 {
        let p = rs.drop_last();
        lemma_fail_iff_urls_reported(p);
        assert(rs.drop_last() == p);
        if has_failure(p) {
            let j = choose|j: int| 0 <= j < p.len() && (#[trigger] p[j]).outcome is Failure;
            assert(rs[j] == p[j]);
        }
        if has_failure(rs) && !(rs.last().outcome is Failure) {
            let j = choose|j: int| 0 <= j < rs.len() && (#[trigger] rs[j]).outcome is Failure;
            assert(p[j] == rs[j]);
        }
        if rs.last().outcome is Failure {
            assert(rs[rs.len() - 1] == rs.last());
        }
    }
}

} // verus!
