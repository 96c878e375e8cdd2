//! The task runner's plans.

use embassy_nrf_esb::tasks::{cargo_args, plan, Task, HIL_RUNNER, HOST_TARGET};

fn args(words: &[&str]) -> Vec<String> {
    words.iter().map(|w| w.to_string()).collect()
}

#[test]
fn commands_become_steps() {
    assert_eq!(
        plan(&args(&["test"])),
        Some(vec![Task::TestHost(HOST_TARGET.to_string()), Task::TestHw])
    );
    assert_eq!(
        plan(&args(&["test-host"])),
        Some(vec![Task::TestHost("x86_64-unknown-linux-gnu".to_string())])
    );
    assert_eq!(
        plan(&args(&["test-host", "aarch64-unknown-linux-gnu"])),
        Some(vec![Task::TestHost("aarch64-unknown-linux-gnu".to_string())])
    );
    assert_eq!(plan(&args(&["test-hw"])), Some(vec![Task::TestHw]));
    assert_eq!(plan(&args(&["tests"])), None);
    assert_eq!(plan(&args(&[])), None);
}

#[test]
fn steps_become_command_lines() {
    let (words, runner) = cargo_args(&Task::TestHost("some-triple".to_string()));
    assert_eq!(
        words,
        args(&["test", "--lib", "--target", "some-triple", "--features", "nrf52840"])
    );
    assert_eq!(runner, None);
    let (words, runner) = cargo_args(&Task::TestHw);
    assert_eq!(words[..3], args(&["test", "--test", "hw"])[..]);
    assert_eq!(words[4], "thumbv7em-none-eabihf");
    assert_eq!(runner.as_deref(), Some(HIL_RUNNER));
}
