use bili_manga::episode::{
    first_failure, is_downloadable, plan_episode, EpisodeAction, EpisodeEvent, EpisodePlan,
    EpisodeRun, Stage,
};
use bili_manga::error::BiliMangaError;
use bili_manga::structs::{EpInfo, EpisodeDetail, ImageIndex, ImageToken, MangaDetail};
use bili_manga::text::asset_file_name;

fn episode(id: i64, ord: i64, is_locked: bool, is_in_free: bool) -> EpInfo {
    EpInfo {
        id,
        title: format!("ep {}", ord),
        short_title: ord.to_string(),
        is_in_free,
        is_locked,
        ord,
    }
}

#[test]
fn locked_episode_is_skipped() {
    let ep = episode(1, 1, true, false);
    assert!(!is_downloadable(&ep));
    assert_eq!(plan_episode(&ep, false), EpisodePlan::Locked);
    assert_eq!(plan_episode(&ep, true), EpisodePlan::Locked);
}

#[test]
fn locked_but_free_is_downloaded() {
    let ep = episode(1, 1, true, true);
    assert!(is_downloadable(&ep));
    assert_eq!(plan_episode(&ep, false), EpisodePlan::Download);
}

#[test]
fn present_directory_is_skipped() {
    let ep = episode(2, 3, false, false);
    assert_eq!(plan_episode(&ep, true), EpisodePlan::AlreadyDownloaded);
    assert_eq!(plan_episode(&ep, false), EpisodePlan::Download);
}

#[test]
fn all_images_succeed() {
    assert!(first_failure(vec![Ok(()), Ok(())]).is_ok());
    assert!(first_failure(Vec::new()).is_ok());
}

#[test]
fn first_failure_wins() {
    let results = vec![
        Ok(()),
        Err(BiliMangaError::CustomError("first".to_string())),
        Ok(()),
        Err(BiliMangaError::CustomError("second".to_string())),
    ];
    match first_failure(results) {
        Err(BiliMangaError::CustomError(m)) => assert_eq!(m, "first"),
        other => panic!("unexpected {:?}", other),
    }
}

fn detail(host: &str, path: &str) -> EpisodeDetail {
    EpisodeDetail { path: path.to_string(), host: host.to_string(), images: Vec::new() }
}

fn tokens(n: usize) -> Vec<ImageToken> {
    (0..n)
        .map(|i| ImageToken { url: format!("u{}", i), token: format!("t{}", i) })
        .collect()
}

#[test]
fn locked_run_fetches_nothing() {
    let (mut run, action) = EpisodeRun::start(7, episode(1, 1, true, false));
    assert!(matches!(action, EpisodeAction::SkipLocked));
    assert_eq!(run.stage, Stage::Done);
    let next = run.step(EpisodeEvent::DirectoryCreated);
    assert!(matches!(next, EpisodeAction::Finish(Err(BiliMangaError::UnexpectedEvent))));
    assert_eq!(run.stage, Stage::Done);
}

#[test]
fn present_run_fetches_nothing() {
    let (mut run, action) = EpisodeRun::start(7, episode(2, 4, false, false));
    assert!(matches!(action, EpisodeAction::CheckDirectory));
    let next = run.step(EpisodeEvent::DirectoryChecked(true));
    assert!(matches!(next, EpisodeAction::SkipPresent));
    assert_eq!(run.stage, Stage::Done);
}

#[test]
fn full_run_in_order() {
    let (mut run, action) = EpisodeRun::start(7, episode(11, 2, false, false));
    assert!(matches!(action, EpisodeAction::CheckDirectory));
    assert!(matches!(run.step(EpisodeEvent::DirectoryChecked(false)), EpisodeAction::CreateDirectory));
    assert!(matches!(run.step(EpisodeEvent::DirectoryCreated), EpisodeAction::FetchIndex(11)));
    match run.step(EpisodeEvent::IndexFetched(detail("https://h", "/p/index.dat"))) {
        EpisodeAction::FetchManifest { url, episode_id, manga_id } => {
            assert_eq!(url, "https://h/p/index.dat");
            assert_eq!(episode_id, 11);
            assert_eq!(manga_id, 7);
        }
        other => panic!("unexpected {:?}", other),
    }
    let pics = vec!["a".to_string(), "b".to_string(), "c".to_string()];
    match run.step(EpisodeEvent::ManifestRead(ImageIndex { pics: pics.clone() })) {
        EpisodeAction::RequestTokens(paths) => assert_eq!(paths, pics),
        other => panic!("unexpected {:?}", other),
    }
    match run.step(EpisodeEvent::TokensFetched(tokens(3))) {
        EpisodeAction::SaveImages(jobs) => {
            let got: Vec<(usize, String)> = jobs.into_iter().map(|j| (j.index, j.url)).collect();
            assert_eq!(
                got,
                vec![
                    (0, "u0?token=t0".to_string()),
                    (1, "u1?token=t1".to_string()),
                    (2, "u2?token=t2".to_string()),
                ]
            );
        }
        other => panic!("unexpected {:?}", other),
    }
    assert!(matches!(run.step(EpisodeEvent::ImagesSaved(vec![Ok(()), Ok(()), Ok(())])), EpisodeAction::Finish(Ok(()))));
    assert_eq!(run.stage, Stage::Done);
}

#[test]
fn failed_step_ends_run() {
    let (mut run, _) = EpisodeRun::start(7, episode(11, 2, false, false));
    run.step(EpisodeEvent::DirectoryChecked(false));
    let next = run.step(EpisodeEvent::Failed(BiliMangaError::CustomError("io".to_string())));
    match next {
        EpisodeAction::Finish(Err(BiliMangaError::CustomError(m))) => assert_eq!(m, "io"),
        other => panic!("unexpected {:?}", other),
    }
    assert_eq!(run.stage, Stage::Done);
}

#[test]
fn image_failure_ends_run_with_it() {
    let (mut run, _) = EpisodeRun::start(7, episode(11, 2, false, false));
    run.step(EpisodeEvent::DirectoryChecked(false));
    run.step(EpisodeEvent::DirectoryCreated);
    run.step(EpisodeEvent::IndexFetched(detail("h", "p")));
    run.step(EpisodeEvent::ManifestRead(ImageIndex { pics: vec!["a".to_string()] }));
    run.step(EpisodeEvent::TokensFetched(tokens(2)));
    let results = vec![Ok(()), Err(BiliMangaError::CustomError("net".to_string()))];
    match run.step(EpisodeEvent::ImagesSaved(results)) {
        EpisodeAction::Finish(Err(BiliMangaError::CustomError(m))) => assert_eq!(m, "net"),
        other => panic!("unexpected {:?}", other),
    }
}

#[test]
fn event_out_of_order() {
    let (mut run, _) = EpisodeRun::start(7, episode(11, 2, false, false));
    let next = run.step(EpisodeEvent::TokensFetched(tokens(1)));
    assert!(matches!(next, EpisodeAction::Finish(Err(BiliMangaError::UnexpectedEvent))));
}

/// Drives one episode with canned answers: no directory exists yet, the
/// manifest lists `n` pages. Returns the directories created and the files
/// written.
fn simulate(manga_id: i64, ep: EpInfo, n: usize) -> (usize, Vec<String>) {
    let (mut run, mut action) = EpisodeRun::start(manga_id, ep);
    let mut created = 0;
    let mut files = Vec::new();
    loop {
        let event = match action {
            EpisodeAction::SkipLocked | EpisodeAction::SkipPresent => break,
            EpisodeAction::Finish(r) => {
                assert!(r.is_ok());
                break;
            }
            EpisodeAction::CheckDirectory => EpisodeEvent::DirectoryChecked(false),
            EpisodeAction::CreateDirectory => {
                created += 1;
                EpisodeEvent::DirectoryCreated
            }
            EpisodeAction::FetchIndex(_) => EpisodeEvent::IndexFetched(detail("h", "p")),
            EpisodeAction::FetchManifest { .. } => EpisodeEvent::ManifestRead(ImageIndex {
                pics: (0..n).map(|i| format!("/p{}.jpg", i)).collect(),
            }),
            EpisodeAction::RequestTokens(paths) => EpisodeEvent::TokensFetched(tokens(paths.len())),
            EpisodeAction::SaveImages(jobs) => {
                let outcomes = jobs.iter().map(|_| Ok(())).collect();
                files.extend(jobs.iter().map(|j| asset_file_name(j.index)));
                EpisodeEvent::ImagesSaved(outcomes)
            }
        };
        action = run.step(event);
    }
    (created, files)
}

#[test]
fn two_episode_catalog() {
    let detail = MangaDetail {
        id: 7,
        title: "T".to_string(),
        ep_list: vec![episode(10, 1, true, false), episode(11, 2, false, false)],
    };
    let plans: Vec<EpisodePlan> = detail.ep_list.iter().map(|e| plan_episode(e, false)).collect();
    assert_eq!(plans, vec![EpisodePlan::Locked, EpisodePlan::Download]);
    let locked = simulate(detail.id, detail.ep_list[0].clone(), 2);
    assert_eq!(locked, (0, Vec::<String>::new()));
    let open = simulate(detail.id, detail.ep_list[1].clone(), 2);
    assert_eq!(open, (1, vec!["0.jpg".to_string(), "1.jpg".to_string()]));
}
