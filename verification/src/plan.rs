//! The clone orchestrator's decisions: which action to take for one
//! repository given what already exists on disk, which notice to print for
//! each outcome, and which repositories enter the clone phase at all. A
//! spec-level model of the directories that the phase creates backs the
//! idempotence law.

use vstd::prelude::*;
use vstd::string::*;
use crate::repo::Repo;

verus! {

/// What the orchestrator does for one repository: leave an existing clone
/// alone, or clone, creating the per-language parent directory first when
/// it is missing.
#[derive(Clone, Copy, Debug, PartialEq, Eq, Structural)]
pub enum CloneAction {
    SkipExisting,
    DoClone { create_parent: bool },
}

/// The per-repository result that is reported. A failed clone subprocess is
/// reported and the run continues; it never aborts the phase.
#[derive(Clone, Copy, Debug, PartialEq, Eq, Structural)]
pub enum CloneReport {
    Skipped,
    CloneOk,
    CloneFailed,
}

/// The three-way branch of the orchestrator, from what exists on disk.
pub open spec fn plan_spec(target_exists: bool, parent_exists: bool) -> CloneAction {
    if target_exists {
        CloneAction::SkipExisting
    } else {
        CloneAction::DoClone { create_parent: !parent_exists }
    }
}

/// Decide what to do for one repository: skip when its target directory is
/// already there, otherwise clone, creating the language directory first
/// only when it is missing.
pub fn plan_clone(target_exists: bool, parent_exists: bool) -> (r: CloneAction)
    ensures
        r == plan_spec(target_exists, parent_exists),
{
    if target_exists {
        CloneAction::SkipExisting
    } else {
        CloneAction::DoClone { create_parent: !parent_exists }
    }
}

/// The target directory of one repository: `{language}/{name}`.
pub open spec fn target_spec(lang: Seq<char>, name: Seq<char>) -> Seq<char> {
    lang + "/"@ + name
}

pub fn target_path(lang: &str, name: &str) -> (r: String)
    ensures
        r@ == target_spec(lang@, name@),
{
    let mut p = String::from_str(lang);
    p.append("/");
    p.append(name);
    p
}

/// The progress line printed before the listing request.
pub fn getting_repos_notice(user: &str) -> (r: String)
    ensures
        r@ == "Getting repos "@ + user@ + ":"@,
{
    let mut n = String::from_str("Getting repos ");
    n.append(user);
    n.append(":");
    n
}

/// The notice printed for one repository's outcome.
pub fn clone_notice(lang: &str, name: &str, url: &str, report: CloneReport) -> (r: String)
    ensures
        report is Skipped ==> r@ == "skip existing: "@ + lang@ + "/"@ + name@,
        report is CloneOk ==> r@ == "     clone OK: "@ + lang@ + "/"@ + name@ + " ("@ + url@
            + ")"@,
        report is CloneFailed ==> r@ == " clone FAILED: "@ + lang@ + "/"@ + name@ + " ("@ + url@
            + ")"@,
{
    let mut n = match report {
        CloneReport::Skipped => String::from_str("skip existing: "),
        CloneReport::CloneOk => String::from_str("     clone OK: "),
        CloneReport::CloneFailed => String::from_str(" clone FAILED: "),
    };
    n.append(lang);
    n.append("/");
    n.append(name);
    match report {
        CloneReport::Skipped => n,
        _ => {
            n.append(" (");
            n.append(url);
            n.append(")");
            n
        },
    }
}

/// Which repositories enter the clone phase: none when cloning was not
/// requested, all of them when it was. With an empty result the phase
/// creates no directory and starts no subprocess.
pub fn clone_targets(do_clone: bool, repos: Vec<Repo>) -> (r: Vec<Repo>)
    ensures
        !do_clone ==> r@.len() == 0,
        do_clone ==> r == repos,
{
    if do_clone {
        repos
    } else {
        Vec::new()
    }
}

/// The target directory of one repository record.
pub open spec fn repo_target(r: Repo) -> Seq<char> {
    target_spec(r.lang@, r.name@)
}

/// The effect of one clone task on the set of directories that exist,
/// following the decision of `plan_spec`: an existing target is left alone;
/// otherwise the language directory exists afterwards, and the target
/// directory too when the subprocess succeeded (`ok`).
pub open spec fn fs_step(fs: Set<Seq<char>>, r: Repo, ok: bool) -> Set<Seq<char>> {
    match plan_spec(fs.contains(repo_target(r)), fs.contains(r.lang@)) {
        CloneAction::SkipExisting => fs,
        CloneAction::DoClone { create_parent: _ } => if ok {
            fs.insert(r.lang@).insert(repo_target(r))
        } else {
            fs.insert(r.lang@)
        },
    }
}

/// What one clone task reports, given the same state.
pub open spec fn report_step(fs: Set<Seq<char>>, r: Repo, ok: bool) -> CloneReport {
    if fs.contains(repo_target(r)) {
        CloneReport::Skipped
    } else if ok {
        CloneReport::CloneOk
    } else {
        CloneReport::CloneFailed
    }
}

/// The directories that exist after a whole clone phase, the tasks' effects
/// taken one at a time (`oks[i]` is whether repository `rs[i]`'s subprocess
/// exited zero).
pub open spec fn fs_run(fs: Set<Seq<char>>, rs: Seq<Repo>, oks: Seq<bool>) -> Set<Seq<char>>
    decreases rs.len(),
{
    if rs.len() == 0 {
        fs
    } else {
        fs_run(fs_step(fs, rs[0], oks[0]), rs.drop_first(), oks.drop_first())
    }
}

/// The reports of a whole clone phase, one per repository, in order.
pub open spec fn reports_run(fs: Set<Seq<char>>, rs: Seq<Repo>, oks: Seq<bool>) -> Seq<CloneReport>
    decreases rs.len(),
{
    if rs.len() == 0 {
        Seq::empty()
    } else {
        seq![report_step(fs, rs[0], oks[0])] + reports_run(
            fs_step(fs, rs[0], oks[0]),
            rs.drop_first(),
            oks.drop_first(),
        )
    }
}

/// A clone phase never removes a directory.
pub proof fn lemma_fs_run_monotonic(fs: Set<Seq<char>>, rs: Seq<Repo>, oks: Seq<bool>, x: Seq<char>)
    requires
        oks.len() == rs.len(),
        fs.contains(x),
    ensures
        fs_run(fs, rs, oks).contains(x),
    decreases rs.len(),
{
    if rs.len() > 0 {
        lemma_fs_run_monotonic(fs_step(fs, rs[0], oks[0]), rs.drop_first(), oks.drop_first(), x);
    }
}

/// After a clone phase in which every subprocess succeeded, every
/// repository's target directory exists.
pub proof fn lemma_run_creates_targets(fs: Set<Seq<char>>, rs: Seq<Repo>, oks: Seq<bool>)
    requires
        oks.len() == rs.len(),
        forall|i: int| 0 <= i < oks.len() ==> oks[i],
    ensures
        forall|i: int|
            0 <= i < rs.len() ==> fs_run(fs, rs, oks).contains(repo_target(#[trigger] rs[i])),
    decreases rs.len(),
{
    if rs.len() > 0 {
        let fs1 = fs_step(fs, rs[0], oks[0]);
        assert(fs1.contains(repo_target(rs[0])));
        lemma_fs_run_monotonic(fs1, rs.drop_first(), oks.drop_first(), repo_target(rs[0]));
        lemma_run_creates_targets(fs1, rs.drop_first(), oks.drop_first());
        assert forall|i: int|
            0 <= i < rs.len() implies fs_run(fs, rs, oks).contains(
            repo_target(#[trigger] rs[i]),
        ) by {
            if i > 0 {
                assert(rs.drop_first()[i - 1] == rs[i]);
            }
        }
    }
}

/// A clone phase over repositories whose target directories all exist
/// already changes nothing and reports every repository as skipped.
pub proof fn lemma_run_when_all_exist(fs: Set<Seq<char>>, rs: Seq<Repo>, oks: Seq<bool>)
    requires
        oks.len() == rs.len(),
        forall|i: int| 0 <= i < rs.len() ==> fs.contains(repo_target(#[trigger] rs[i])),
    ensures
        fs_run(fs, rs, oks) == fs,
        reports_run(fs, rs, oks).len() == rs.len(),
        forall|i: int|
            0 <= i < rs.len() ==> #[trigger] reports_run(fs, rs, oks)[i] == CloneReport::Skipped,
    decreases rs.len(),
{
    if rs.len() > 0 {
        assert(fs.contains(repo_target(rs[0])));
        assert(fs_step(fs, rs[0], oks[0]) == fs);
        assert forall|i: int|
            0 <= i < rs.drop_first().len() implies fs.contains(
            repo_target(#[trigger] rs.drop_first()[i]),
        ) by {
            assert(rs.drop_first()[i] == rs[i + 1]);
        }
        lemma_run_when_all_exist(fs, rs.drop_first(), oks.drop_first());
        assert forall|i: int|
            0 <= i < rs.len() implies #[trigger] reports_run(fs, rs, oks)[i]
            == CloneReport::Skipped by {
            if i > 0 {
                assert(reports_run(fs, rs, oks)[i] == reports_run(
                    fs,
                    rs.drop_first(),
                    oks.drop_first(),
                )[i - 1]);
            }
        }
    }
}

/// Idempotence of the clone phase: after a run in which every clone
/// subprocess succeeded, a second run over the same repositories creates
/// nothing, attempts no clone, and reports every repository as skipped.
pub proof fn lemma_clone_phase_idempotent(
    fs: Set<Seq<char>>,
    rs: Seq<Repo>,
    oks1: Seq<bool>,
    oks2: Seq<bool>,
)
    requires
        oks1.len() == rs.len(),
        oks2.len() == rs.len(),
        forall|i: int| 0 <= i < oks1.len() ==> oks1[i],
    ensures
        fs_run(fs_run(fs, rs, oks1), rs, oks2) == fs_run(fs, rs, oks1),
        forall|i: int|
            0 <= i < rs.len() ==> #[trigger] reports_run(fs_run(fs, rs, oks1), rs, oks2)[i]
                == CloneReport::Skipped,
{
    lemma_run_creates_targets(fs, rs, oks1);
    lemma_run_when_all_exist(fs_run(fs, rs, oks1), rs, oks2);
}

/// Every repository of a clone phase gets exactly one report, whatever each
/// subprocess did: one failed clone never stops the remaining repositories
/// from being processed.
pub proof fn lemma_every_repo_reported(fs: Set<Seq<char>>, rs: Seq<Repo>, oks: Seq<bool>)
    requires
        oks.len() == rs.len(),
    ensures
        reports_run(fs, rs, oks).len() == rs.len(),
    decreases rs.len(),
{
    if rs.len() > 0 {
        lemma_every_repo_reported(fs_step(fs, rs[0], oks[0]), rs.drop_first(), oks.drop_first());
    }
}

} // verus!
