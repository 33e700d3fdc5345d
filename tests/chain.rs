use std::io::{Cursor, Write};

use dreamio_updater::archive::apply_archive_bytes;
use dreamio_updater::download::{
    check_status, expect_json_body, insecure_url, is_html, is_secure, progress_sample,
    DownloadError, DownloadMeter, FetchSession, CHUNK_SIZE,
};
use dreamio_updater::install_tree::InstallTree;
use dreamio_updater::manifest::{
    read_latest_url, read_version_code, read_version_manifest, required_string, versioned_url,
    ManifestError,
};
use dreamio_updater::processor::EntryOutcome;
use dreamio_updater::updater::{
    UpdateError, UpdaterAction, UpdaterEvent, UpdaterState, VersionChainUpdater,
    MAX_CHAIN_CYCLES,
};

const EXE: &str = "Dreamio_Updater.exe";

fn zip_of(entries: &[(&str, &[u8])]) -> Vec<u8> {
    let mut buf = Vec::new();
    {
        let mut w = zip::ZipWriter::new(Cursor::new(&mut buf));
        let opts = zip::write::FileOptions::default()
            .compression_method(zip::CompressionMethod::Stored);
        for (name, data) in entries {
            w.start_file(*name, opts).unwrap();
            w.write_all(data).unwrap();
        }
        w.finish().unwrap();
    }
    buf
}

#[test]
fn progress_sample_values() {
    let p = progress_sample(5000, 20000, 2000);
    assert_eq!(p.rate, 2500);
    assert_eq!(p.eta_ms, 6000);
    assert_eq!(p.bytes_done, 5000);
    assert_eq!(p.bytes_total, 20000);
    assert_eq!(p.elapsed_ms, 2000);
}

#[test]
fn eta_is_zero_when_unknown() {
    // No time has passed: no rate, no estimate.
    let p = progress_sample(100, 1000, 0);
    assert_eq!(p.rate, 0);
    assert_eq!(p.eta_ms, 0);
    // Unknown length.
    let q = progress_sample(100, 0, 10);
    assert_eq!(q.rate, 10000);
    assert_eq!(q.eta_ms, 0);
    // Done.
    let r = progress_sample(1000, 1000, 10);
    assert_eq!(r.eta_ms, 0);
    // Rate rounds down to zero.
    let s = progress_sample(0, 1000, 10);
    assert_eq!(s.rate, 0);
    assert_eq!(s.eta_ms, 0);
}

#[test]
fn progress_saturates() {
    let p = progress_sample(u64::MAX, u64::MAX, 1);
    assert_eq!(p.rate, u64::MAX);
    assert_eq!(p.eta_ms, 0);
}

#[test]
fn meter_accumulates_chunks() {
    let mut m = DownloadMeter::new(3 * CHUNK_SIZE as u64);
    let a = m.record(CHUNK_SIZE, 1000);
    assert_eq!(a.bytes_done, 8192);
    assert_eq!(a.rate, 8192);
    assert_eq!(a.eta_ms, 2000);
    let b = m.record(CHUNK_SIZE, 2000);
    assert_eq!(b.bytes_done, 16384);
    assert_eq!(b.eta_ms, 1000);
    let mut full = DownloadMeter::new(0);
    full.bytes_done = u64::MAX - 1;
    assert_eq!(full.record(10, 5).bytes_done, u64::MAX);
}

#[test]
fn scheme_substitution() {
    assert!(is_secure("https://example/latest.zip"));
    assert!(!is_secure("http://example/latest.zip"));
    assert_eq!(insecure_url("https://example/latest.zip"), "http://example/latest.zip");
}

#[test]
fn fallback_happens_once() {
    let mut s = FetchSession::start("https://example/a.zip");
    let mut requests = vec![s.url.clone()];
    let mut result = Err(DownloadError::Transport);
    while let Some(next) = s.on_result(&result) {
        requests.push(next);
        result = Err(DownloadError::Transport);
    }
    assert_eq!(requests, vec!["https://example/a.zip", "http://example/a.zip"]);
    assert_eq!(result, Err(DownloadError::Transport));
}

#[test]
fn no_fallback_for_status_or_insecure() {
    let mut s = FetchSession::start("https://example/a.zip");
    assert_eq!(s.on_result(&Err(DownloadError::HttpStatus(500))), None);
    assert_eq!(s.on_result(&Ok(())), None);
    let mut t = FetchSession::start("http://example/a.zip");
    assert_eq!(t.on_result(&Err(DownloadError::Transport)), None);
    assert!(!t.fell_back);
}

#[test]
fn status_and_content_type() {
    assert_eq!(check_status(200), Ok(()));
    assert_eq!(check_status(299), Ok(()));
    assert_eq!(check_status(404), Err(DownloadError::HttpStatus(404)));
    assert_eq!(check_status(199), Err(DownloadError::HttpStatus(199)));
    assert!(is_html("text/html; charset=utf-8"));
    assert!(is_html("TEXT/HTML"));
    assert!(is_html("Text/Html; charset=UTF-8"));
    assert!(!is_html("text/htm"));
    assert!(!is_html("text/xhtml"));
    assert!(!is_html("application/json"));
    let page = "<html>login</html>".to_string();
    assert_eq!(
        expect_json_body(200, "text/html", page.clone()),
        Err(DownloadError::UnexpectedHtmlResponse(page))
    );
    assert_eq!(
        expect_json_body(503, "text/html", String::new()),
        Err(DownloadError::HttpStatus(503))
    );
    assert_eq!(
        expect_json_body(200, "application/json", "{}".to_string()),
        Ok("{}".to_string())
    );
}

#[test]
fn manifest_fields() {
    assert_eq!(read_version_code(r#"{"versionCode":"5"}"#), Ok("5".to_string()));
    assert_eq!(read_version_code("not json"), Err(ManifestError::Malformed));
    assert_eq!(read_version_code(r#"{"other":"5"}"#), Err(ManifestError::MissingField));
    assert_eq!(read_version_code(r#"{"versionCode":5}"#), Err(ManifestError::MissingField));
    assert_eq!(
        read_latest_url(r#"{"latestUrl":"https://example/latest.zip"}"#),
        Ok("https://example/latest.zip".to_string())
    );
    let err = serde_json::from_str::<serde_json::Value>("{").unwrap_err();
    assert_eq!(required_string(Err(err)), Err(ManifestError::Malformed));
    assert_eq!(required_string(Ok(None)), Err(ManifestError::MissingField));
    assert_eq!(required_string(Ok(Some("x".to_string()))), Ok("x".to_string()));
}

#[test]
fn versioned_url_template() {
    assert_eq!(
        versioned_url("5"),
        "https://dreamio.xyz/downloads/Builds/Windows/patches/5.zip"
    );
    let m = read_version_manifest(r#"{"versionCode":"1.2.3"}"#).unwrap();
    assert_eq!(m.version_code, "1.2.3");
    assert_eq!(
        m.download_url,
        "https://dreamio.xyz/downloads/Builds/Windows/patches/1.2.3.zip"
    );
}

#[test]
fn scenario_bootstrap() {
    let mut u = VersionChainUpdater::new();
    let mut tree = InstallTree::new();
    let act = u.step(UpdaterEvent::Started { staged_present: false, manifest_present: false });
    assert_eq!(act, UpdaterAction::FetchBootstrapManifest);
    let url = read_latest_url(r#"{"latestUrl":"https://example/latest.zip"}"#).unwrap();
    let act = u.step(UpdaterEvent::BootstrapResolved(Ok(url)));
    assert_eq!(act, UpdaterAction::Download("https://example/latest.zip".to_string()));
    let archive = zip_of(&[("game.dat", b"FULL GAME DATA")]);
    assert_eq!(u.step(UpdaterEvent::Downloaded(Ok(()))), UpdaterAction::ApplyDownloaded);
    let rep = apply_archive_bytes(&mut tree, archive, EXE).unwrap();
    assert_eq!(rep.outcomes, vec![EntryOutcome::Applied]);
    assert_eq!(tree.read_file("game.dat"), Some(b"FULL GAME DATA".to_vec()));
    let act = u.step(UpdaterEvent::Applied { result: Ok(()), manifest_present: false });
    assert_eq!(act, UpdaterAction::Finish);
    assert_eq!(u.state, UpdaterState::Converged);
    assert_eq!(u.cycles, 1);
}

#[test]
fn bootstrap_with_manifest_continues_chain() {
    let mut u = VersionChainUpdater::new();
    u.step(UpdaterEvent::Started { staged_present: false, manifest_present: false });
    u.step(UpdaterEvent::BootstrapResolved(Ok("https://example/latest.zip".to_string())));
    u.step(UpdaterEvent::Downloaded(Ok(())));
    let act = u.step(UpdaterEvent::Applied { result: Ok(()), manifest_present: true });
    assert_eq!(act, UpdaterAction::ReadManifest);
    let act = u.step(UpdaterEvent::ManifestRead(Ok("7".to_string())));
    assert_eq!(act, UpdaterAction::Download(versioned_url("7")));
    let act = u.step(UpdaterEvent::Downloaded(Err(DownloadError::HttpStatus(404))));
    assert_eq!(act, UpdaterAction::Finish);
    assert_eq!(u.state, UpdaterState::Converged);
}

#[test]
fn chain_apply_without_manifest_reads_it_again() {
    let mut u = VersionChainUpdater::new();
    u.step(UpdaterEvent::Started { staged_present: false, manifest_present: true });
    u.step(UpdaterEvent::ManifestRead(Ok("2".to_string())));
    u.step(UpdaterEvent::Downloaded(Ok(())));
    let act = u.step(UpdaterEvent::Applied { result: Ok(()), manifest_present: false });
    assert_eq!(act, UpdaterAction::ReadManifest);
}

#[test]
fn scenario_patch_chain() {
    let old = b"game data at version five".to_vec();
    let new = b"game data at version six, patched".to_vec();
    let mut patch = Vec::new();
    qbsdiff::Bsdiff::new(&old, &new).compare(Cursor::new(&mut patch)).unwrap();
    let mut tree = InstallTree::new();
    tree.write_file("game.dat", old);

    let mut u = VersionChainUpdater::new();
    let act = u.step(UpdaterEvent::Started { staged_present: false, manifest_present: true });
    assert_eq!(act, UpdaterAction::ReadManifest);
    let m = read_version_manifest(r#"{"versionCode":"5"}"#).unwrap();
    let act = u.step(UpdaterEvent::ManifestRead(Ok(m.version_code.clone())));
    assert_eq!(act, UpdaterAction::Download(m.download_url.clone()));
    assert_eq!(u.step(UpdaterEvent::Downloaded(Ok(()))), UpdaterAction::ApplyDownloaded);
    let archive = zip_of(&[("game.dat.patch", &patch)]);
    let rep = apply_archive_bytes(&mut tree, archive, EXE).unwrap();
    assert_eq!(rep.outcomes, vec![EntryOutcome::Applied]);
    assert_eq!(tree.read_file("game.dat"), Some(new));
    assert_eq!(u.step(UpdaterEvent::Applied { result: Ok(()), manifest_present: true }), UpdaterAction::ReadManifest);
    let again = read_version_code(r#"{"versionCode":"5"}"#).unwrap();
    assert_eq!(u.step(UpdaterEvent::ManifestRead(Ok(again))), UpdaterAction::Finish);
    assert_eq!(u.state, UpdaterState::Converged);
    assert_eq!(u.cycles, 1);
}

#[test]
fn scenario_tip_reached() {
    let mut u = VersionChainUpdater::new();
    u.step(UpdaterEvent::Started { staged_present: false, manifest_present: true });
    u.step(UpdaterEvent::ManifestRead(Ok("9".to_string())));
    let act = u.step(UpdaterEvent::Downloaded(Err(DownloadError::HttpStatus(404))));
    assert_eq!(act, UpdaterAction::Finish);
    assert_eq!(u.state, UpdaterState::Converged);
}

#[test]
fn convergence_after_one_cycle() {
    let mut u = VersionChainUpdater::new();
    u.step(UpdaterEvent::Started { staged_present: false, manifest_present: true });
    let mut downloads = 0;
    let mut act = u.step(UpdaterEvent::ManifestRead(Ok("3".to_string())));
    while act != UpdaterAction::Finish {
        act = match act {
            UpdaterAction::Download(_) => {
                downloads += 1;
                u.step(UpdaterEvent::Downloaded(Ok(())))
            }
            UpdaterAction::ApplyDownloaded => u.step(UpdaterEvent::Applied { result: Ok(()), manifest_present: true }),
            UpdaterAction::ReadManifest => u.step(UpdaterEvent::ManifestRead(Ok("3".to_string()))),
            other => panic!("unexpected action {:?}", other),
        };
    }
    assert_eq!(downloads, 1);
    assert_eq!(u.state, UpdaterState::Converged);
}

#[test]
fn advancing_chain_downloads_next_version() {
    let mut u = VersionChainUpdater::new();
    u.step(UpdaterEvent::Started { staged_present: false, manifest_present: true });
    u.step(UpdaterEvent::ManifestRead(Ok("3".to_string())));
    u.step(UpdaterEvent::Downloaded(Ok(())));
    u.step(UpdaterEvent::Applied { result: Ok(()), manifest_present: true });
    let act = u.step(UpdaterEvent::ManifestRead(Ok("4".to_string())));
    assert_eq!(act, UpdaterAction::Download(versioned_url("4")));
    assert_eq!(u.cycles, 2);
}

#[test]
fn staged_archive_is_applied_first() {
    let mut u = VersionChainUpdater::new();
    let act = u.step(UpdaterEvent::Started { staged_present: true, manifest_present: true });
    assert_eq!(act, UpdaterAction::ApplyStaged);
    let act = u.step(UpdaterEvent::StagedApplied { result: Ok(()), manifest_present: false });
    assert_eq!(act, UpdaterAction::FetchBootstrapManifest);
    let mut v = VersionChainUpdater::new();
    v.step(UpdaterEvent::Started { staged_present: true, manifest_present: false });
    let act = v.step(UpdaterEvent::StagedApplied {
        result: Err(UpdateError::Archive(dreamio_updater::archive::ArchiveError::Unopenable)),
        manifest_present: true,
    });
    assert_eq!(act, UpdaterAction::Finish);
    assert!(v.is_finished());
    assert!(matches!(v.state, UpdaterState::Failed(UpdateError::Archive(_))));
}

#[test]
fn failures_are_fatal() {
    let mut u = VersionChainUpdater::new();
    u.step(UpdaterEvent::Started { staged_present: false, manifest_present: false });
    // A 404 while bootstrapping is a failure, not convergence.
    u.step(UpdaterEvent::BootstrapResolved(Ok("https://example/latest.zip".to_string())));
    u.step(UpdaterEvent::Downloaded(Err(DownloadError::HttpStatus(404))));
    assert_eq!(
        u.state,
        UpdaterState::Failed(UpdateError::Download(DownloadError::HttpStatus(404)))
    );
    let mut v = VersionChainUpdater::new();
    v.step(UpdaterEvent::Started { staged_present: false, manifest_present: true });
    v.step(UpdaterEvent::ManifestRead(Ok("1".to_string())));
    v.step(UpdaterEvent::Downloaded(Err(DownloadError::HttpStatus(500))));
    assert_eq!(
        v.state,
        UpdaterState::Failed(UpdateError::Download(DownloadError::HttpStatus(500)))
    );
    let mut w = VersionChainUpdater::new();
    w.step(UpdaterEvent::Started { staged_present: false, manifest_present: true });
    w.step(UpdaterEvent::ManifestRead(Err(UpdateError::Manifest(ManifestError::Malformed))));
    assert_eq!(w.state, UpdaterState::Failed(UpdateError::Manifest(ManifestError::Malformed)));
    // Terminal states stay put.
    assert_eq!(w.step(UpdaterEvent::Applied { result: Ok(()), manifest_present: true }), UpdaterAction::Finish);
    assert_eq!(w.state, UpdaterState::Failed(UpdateError::Manifest(ManifestError::Malformed)));
}

#[test]
fn out_of_order_event_fails() {
    let mut u = VersionChainUpdater::new();
    assert_eq!(u.step(UpdaterEvent::Applied { result: Ok(()), manifest_present: true }), UpdaterAction::Finish);
    assert_eq!(u.state, UpdaterState::Failed(UpdateError::OutOfOrder));
}

#[test]
fn endless_chain_is_cut() {
    let mut u = VersionChainUpdater::new();
    u.step(UpdaterEvent::Started { staged_present: false, manifest_present: true });
    let mut version: u64 = 0;
    let mut act = u.step(UpdaterEvent::ManifestRead(Ok(version.to_string())));
    while act != UpdaterAction::Finish {
        act = match act {
            UpdaterAction::Download(_) => u.step(UpdaterEvent::Downloaded(Ok(()))),
            UpdaterAction::ApplyDownloaded => u.step(UpdaterEvent::Applied { result: Ok(()), manifest_present: true }),
            UpdaterAction::ReadManifest => {
                version += 1;
                u.step(UpdaterEvent::ManifestRead(Ok(version.to_string())))
            }
            other => panic!("unexpected action {:?}", other),
        };
    }
    assert_eq!(u.cycles, MAX_CHAIN_CYCLES);
    assert_eq!(u.state, UpdaterState::Failed(UpdateError::ChainTooLong));
}
