use repos::lang::resolve_language;
use repos::plan::{
    clone_notice, clone_targets, getting_repos_notice, plan_clone, target_path, CloneAction,
    CloneReport,
};
use repos::repo::Repo;

fn repo(name: &str, url: &str, lang: &str) -> Repo {
    Repo::new(name.to_string(), url.to_string(), String::new()).set_language(lang.to_string())
}

#[test]
fn existing_target_is_skipped() {
    assert_eq!(plan_clone(true, true), CloneAction::SkipExisting);
    assert_eq!(plan_clone(true, false), CloneAction::SkipExisting);
}

#[test]
fn missing_target_is_cloned() {
    assert_eq!(plan_clone(false, false), CloneAction::DoClone { create_parent: true });
    assert_eq!(plan_clone(false, true), CloneAction::DoClone { create_parent: false });
}

#[test]
fn target_path_is_language_then_name() {
    assert_eq!(target_path("go", "proj"), "go/proj");
    assert_eq!(target_path("jupyter_notebook", "nb"), "jupyter_notebook/nb");
}

#[test]
fn progress_notice() {
    assert_eq!(getting_repos_notice("alice"), "Getting repos alice:");
}

#[test]
fn outcome_notices() {
    assert_eq!(
        clone_notice("go", "proj", "git@github.com:a/proj.git", CloneReport::Skipped),
        "skip existing: go/proj"
    );
    assert_eq!(
        clone_notice("go", "proj", "git@github.com:a/proj.git", CloneReport::CloneOk),
        "     clone OK: go/proj (git@github.com:a/proj.git)"
    );
    assert_eq!(
        clone_notice("go", "proj", "git@github.com:a/proj.git", CloneReport::CloneFailed),
        " clone FAILED: go/proj (git@github.com:a/proj.git)"
    );
}

#[test]
fn dry_run_clones_nothing() {
    let repos = vec![repo("one", "u1", "go"), repo("two", "u2", "rust")];
    assert!(clone_targets(false, repos).is_empty());
}

#[test]
fn requested_clone_keeps_every_repo_in_order() {
    let repos = vec![repo("one", "u1", "go"), repo("two", "u2", "rust")];
    let r = clone_targets(true, repos);
    assert_eq!(r.len(), 2);
    assert_eq!(r[0].name, "one");
    assert_eq!(r[1].name, "two");
}

#[test]
fn two_repos_same_language_share_one_directory() {
    let one = repo("one", "git@github.com:a/one.git", "go");
    let two = repo("two", "git@github.com:a/two.git", "go");
    // Neither target pre-exists, so both are cloned; the first task to run
    // finds no parent directory, the later one finds it already created.
    assert_eq!(plan_clone(false, false), CloneAction::DoClone { create_parent: true });
    assert_eq!(plan_clone(false, true), CloneAction::DoClone { create_parent: false });
    let t1 = target_path(&one.lang, &one.name);
    let t2 = target_path(&two.lang, &two.name);
    assert_eq!(t1, "go/one");
    assert_eq!(t2, "go/two");
    assert_eq!(
        clone_notice(&one.lang, &one.name, &one.ssh_url, CloneReport::CloneOk),
        "     clone OK: go/one (git@github.com:a/one.git)"
    );
    assert_eq!(
        clone_notice(&two.lang, &two.name, &two.ssh_url, CloneReport::CloneOk),
        "     clone OK: go/two (git@github.com:a/two.git)"
    );
}

#[test]
fn second_run_skips_every_repo() {
    // After a first run in which both clones succeeded, both target
    // directories exist, so the second run only reports skips.
    let one = repo("one", "git@github.com:a/one.git", "go");
    let two = repo("two", "git@github.com:a/two.git", "go");
    assert_eq!(plan_clone(true, true), CloneAction::SkipExisting);
    assert_eq!(
        clone_notice(&one.lang, &one.name, &one.ssh_url, CloneReport::Skipped),
        "skip existing: go/one"
    );
    assert_eq!(
        clone_notice(&two.lang, &two.name, &two.ssh_url, CloneReport::Skipped),
        "skip existing: go/two"
    );
}

#[test]
fn unreachable_language_endpoint_falls_back_to_other() {
    // Three repositories; the second one's language endpoint answered 404,
    // so its table never decoded and it is filed under `other`.
    let lang1 = resolve_language(Some(vec![("Go".to_string(), 10u32)]));
    let lang2 = resolve_language(None);
    let lang3 = resolve_language(Some(vec![("Rust".to_string(), 3u32)]));
    assert_eq!(lang1, "go");
    assert_eq!(lang2, "other");
    assert_eq!(lang3, "rust");
    let two = repo("two", "git@github.com:a/two.git", &lang2);
    assert_eq!(target_path(&two.lang, &two.name), "other/two");
    assert_eq!(plan_clone(false, false), CloneAction::DoClone { create_parent: true });
}

#[test]
fn failed_clone_is_reported_and_does_not_abort() {
    // One repository's subprocess exits non-zero: its notice says FAILED,
    // and the remaining repository is still processed.
    let bad = repo("bad", "git@bad", "go");
    let good = repo("good", "git@github.com:a/good.git", "go");
    assert_eq!(
        clone_notice(&bad.lang, &bad.name, &bad.ssh_url, CloneReport::CloneFailed),
        " clone FAILED: go/bad (git@bad)"
    );
    assert_eq!(
        clone_notice(&good.lang, &good.name, &good.ssh_url, CloneReport::CloneOk),
        "     clone OK: go/good (git@github.com:a/good.git)"
    );
}
