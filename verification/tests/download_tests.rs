use pwninit::container::{CommandOutput, Request};
use pwninit::dockerfile::Error;
use pwninit::download::{download_libc_ld_for_docker_tag, Download, Phase};
use pwninit::extract::{Attempt, Outcome};

fn output(success: bool, stdout: &str, stderr: &str) -> CommandOutput {
    CommandOutput { success, stdout: stdout.to_string(), stderr: stderr.to_string() }
}

fn copy(container: &str, path: &str) -> Request {
    Request::CopyOut { container: container.to_string(), path: path.to_string() }
}

/// Runs `download` to its end with what `answer` gives for each call.
/// Returns the calls made.
fn drive(download: &mut Download, answer: &dyn Fn(&Request) -> CommandOutput) -> Vec<Request> {
    let mut calls = Vec::new();
    while let Some(request) = download.request() {
        let result = answer(&request);
        calls.push(request);
        download.record(&result);
        assert!(calls.len() < 100);
    }
    calls
}

fn removals(calls: &[Request]) -> usize {
    calls.iter().filter(|call| matches!(call, Request::Remove { .. })).count()
}

fn copies(calls: &[Request]) -> usize {
    calls.iter().filter(|call| matches!(call, Request::CopyOut { .. })).count()
}

const GLIBC_LISTING: &str = "\tlibc.so.6 (libc6,x86-64) => /lib/x86_64-linux-gnu/libc.so.6\n\tld-linux-x86-64.so.2 (libc6,x86-64) => /lib64/ld-linux-x86-64.so.2\n";

#[test]
fn a_download_begins_with_the_creation() {
    let download = download_libc_ld_for_docker_tag("ubuntu:20.04");
    assert_eq!(download.phase(), Phase::Creating);
    assert_eq!(download.request(), Some(Request::Create { image: "ubuntu:20.04".to_string() }));
    assert_eq!(download.result(), None);
    assert!(download.extraction().is_none());
}

#[test]
fn a_download_announces_itself() {
    let download = download_libc_ld_for_docker_tag("ubuntu:20.04");
    assert_eq!(
        download.announcement(),
        "Creating a container for tag: ubuntu:20.04\nThis may take a while..."
    );
}

#[test]
fn a_failed_creation_ends_the_download_without_removal() {
    let mut download = download_libc_ld_for_docker_tag("nowhere:latest");
    let calls = drive(&mut download, &|_| output(false, "", "image not found"));
    assert_eq!(calls, vec![Request::Create { image: "nowhere:latest".to_string() }]);
    assert_eq!(removals(&calls), 0);
    assert_eq!(copies(&calls), 0);
    assert_eq!(download.phase(), Phase::Finished);
    assert_eq!(
        download.result(),
        Some(Err(Error::Run { message: "image not found".to_string() }))
    );
    assert!(download.extraction().is_none());
}

#[test]
fn a_whole_download_creates_lists_copies_and_removes() {
    let mut download = download_libc_ld_for_docker_tag("ubuntu:20.04");
    let calls = drive(&mut download, &|request| match request {
        Request::Create { .. } => output(true, "3f4e5d6c\n", ""),
        Request::ListCache { .. } => output(true, GLIBC_LISTING, ""),
        Request::CopyOut { path, .. } if path.contains("musl") => {
            output(false, "", "Error: No such container:path")
        }
        Request::CopyOut { .. } => output(true, "", ""),
        Request::Remove { .. } => output(true, "3f4e5d6c\n", ""),
    });
    assert_eq!(
        calls,
        vec![
            Request::Create { image: "ubuntu:20.04".to_string() },
            Request::ListCache { image: "ubuntu:20.04".to_string() },
            copy("3f4e5d6c", "/lib/x86_64-linux-gnu/libc.so.6"),
            copy("3f4e5d6c", "/lib64/ld-linux-x86-64.so.2"),
            copy("3f4e5d6c", "/lib/ld-musl-x86_64.so.1"),
            copy("3f4e5d6c", "/lib/libc.musl-x86_64.so.1"),
            Request::Remove { container: "3f4e5d6c".to_string() },
        ]
    );
    assert_eq!(download.result(), Some(Ok(())));
    let report = download.extraction().unwrap().report();
    assert_eq!(report.len(), 4);
    assert_eq!(
        report[0],
        Attempt {
            subject: "/lib/x86_64-linux-gnu/libc.so.6".to_string(),
            fallback: false,
            outcome: Outcome::Copied
        }
    );
}

#[test]
fn the_container_is_removed_once_though_every_copy_fails() {
    let mut download = download_libc_ld_for_docker_tag("ubuntu:20.04");
    let calls = drive(&mut download, &|request| match request {
        Request::Create { .. } => output(true, "abc123\n", ""),
        Request::ListCache { .. } => output(true, GLIBC_LISTING, ""),
        _ => output(false, "", "daemon is gone"),
    });
    assert_eq!(removals(&calls), 1);
    assert_eq!(calls.last(), Some(&Request::Remove { container: "abc123".to_string() }));
    assert_eq!(copies(&calls), 4);
    assert_eq!(download.result(), Some(Ok(())));
}

#[test]
fn the_container_is_removed_once_though_the_listing_fails() {
    let mut download = download_libc_ld_for_docker_tag("alpine:3.18");
    let calls = drive(&mut download, &|request| match request {
        Request::Create { .. } => output(true, "  77aa\r\n", ""),
        Request::ListCache { .. } => output(false, "", "exec: ldconfig: not found"),
        _ => output(true, "", ""),
    });
    assert_eq!(
        calls,
        vec![
            Request::Create { image: "alpine:3.18".to_string() },
            Request::ListCache { image: "alpine:3.18".to_string() },
            copy("77aa", "/lib/ld-musl-x86_64.so.1"),
            copy("77aa", "/lib/libc.musl-x86_64.so.1"),
            Request::Remove { container: "77aa".to_string() },
        ]
    );
    assert_eq!(removals(&calls), 1);
    assert_eq!(download.result(), Some(Ok(())));
}

#[test]
fn a_creation_that_fails_without_a_word_ends_the_download() {
    let mut download = download_libc_ld_for_docker_tag("odd");
    let calls = drive(&mut download, &|_| output(false, " id ", ""));
    assert_eq!(calls, vec![Request::Create { image: "odd".to_string() }]);
    assert_eq!(download.phase(), Phase::Finished);
    assert_eq!(download.result(), Some(Err(Error::Run { message: "".to_string() })));
    assert!(download.extraction().is_none());
}

#[test]
fn a_creation_that_exits_with_zero_goes_on_whatever_it_wrote() {
    let mut download = download_libc_ld_for_docker_tag("odd");
    download.record(&output(true, " id \n", "WARNING: platform does not match"));
    assert_eq!(download.phase(), Phase::Extracting);
    assert_eq!(download.extraction().unwrap().container(), "id");
}

#[test]
fn the_phases_follow_each_other() {
    let mut download = download_libc_ld_for_docker_tag("alpine");
    assert_eq!(download.phase(), Phase::Creating);
    download.record(&output(true, "c1\n", ""));
    assert_eq!(download.phase(), Phase::Extracting);
    download.record(&output(true, "", ""));
    assert_eq!(download.phase(), Phase::Extracting);
    download.record(&output(true, "", ""));
    assert_eq!(download.phase(), Phase::Extracting);
    assert_eq!(download.result(), None);
    download.record(&output(true, "", ""));
    assert_eq!(download.phase(), Phase::Removing);
    assert_eq!(download.request(), Some(Request::Remove { container: "c1".to_string() }));
    assert_eq!(download.result(), None);
    download.record(&output(false, "", "no such container"));
    assert_eq!(download.phase(), Phase::Finished);
    assert_eq!(download.request(), None);
    assert_eq!(download.result(), Some(Ok(())));
    download.record(&output(false, "", "again"));
    assert_eq!(download.phase(), Phase::Finished);
}
