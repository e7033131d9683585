use pwninit::container::{check_docker_create, check_docker_stderr, CommandOutput, Request};
use pwninit::dockerfile::Error;

fn output(success: bool, stdout: &str, stderr: &str) -> CommandOutput {
    CommandOutput { success, stdout: stdout.to_string(), stderr: stderr.to_string() }
}

fn words(list: &[&str]) -> Vec<String> {
    list.iter().map(|word| word.to_string()).collect()
}

#[test]
fn every_request_goes_to_docker() {
    assert_eq!(Request::Create { image: "a".to_string() }.program(), "docker");
    assert_eq!(Request::Remove { container: "a".to_string() }.program(), "docker");
}

#[test]
fn create_names_the_image() {
    let request = Request::Create { image: "ubuntu:20.04".to_string() };
    assert_eq!(request.arguments(), words(&["create", "ubuntu:20.04"]));
}

#[test]
fn listing_runs_ldconfig_in_a_container_that_is_thrown_away() {
    let request = Request::ListCache { image: "ubuntu:20.04".to_string() };
    assert_eq!(request.arguments(), words(&["run", "--rm", "ubuntu:20.04", "ldconfig", "-p"]));
}

#[test]
fn copy_follows_links_into_the_working_directory() {
    let request = Request::CopyOut {
        container: "3f4e".to_string(),
        path: "/lib/x86_64-linux-gnu/libc.so.6".to_string(),
    };
    assert_eq!(
        request.arguments(),
        words(&["cp", "-L", "3f4e:/lib/x86_64-linux-gnu/libc.so.6", "."])
    );
}

#[test]
fn remove_names_the_container() {
    let request = Request::Remove { container: "3f4e".to_string() };
    assert_eq!(request.arguments(), words(&["rm", "3f4e"]));
}

#[test]
fn a_run_that_exits_with_zero_is_well() {
    assert_eq!(check_docker_stderr(&output(true, "", "")), Ok(()));
    assert_eq!(check_docker_stderr(&output(true, "id\n", "warning: something")), Ok(()));
}

#[test]
fn a_run_that_fails_and_complains_is_an_error() {
    assert_eq!(
        check_docker_stderr(&output(false, "", "image not found")),
        Err(Error::Run { message: "image not found".to_string() })
    );
}

#[test]
fn a_run_that_fails_without_a_word_is_well() {
    assert_eq!(check_docker_stderr(&output(false, "abc", "")), Ok(()));
}

#[test]
fn a_creation_answers_with_the_container() {
    assert_eq!(check_docker_create(&output(true, "3f4e5d6c\n", "")), Ok("3f4e5d6c".to_string()));
    assert_eq!(check_docker_create(&output(true, "  77aa\r\n", "a warning")), Ok("77aa".to_string()));
    assert_eq!(check_docker_create(&output(true, "", "")), Ok("".to_string()));
}

#[test]
fn a_creation_that_exits_with_another_status_has_failed() {
    assert_eq!(
        check_docker_create(&output(false, "", "image not found")),
        Err(Error::Run { message: "image not found".to_string() })
    );
    assert_eq!(
        check_docker_create(&output(false, "3f4e\n", "")),
        Err(Error::Run { message: "".to_string() })
    );
}
