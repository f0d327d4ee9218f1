use asset_core::backoff::{run_retries, Backoff, RetryRun};

#[test]
fn three_failures_then_success_waits_seven_units() {
    let outcomes = vec![false, false, false, true];
    let run = run_retries(&outcomes);
    assert_eq!(run, RetryRun { attempts: 4, total_wait: 1 + 2 + 4, succeeded: true });
}

#[test]
fn immediate_success_waits_nothing() {
    let run = run_retries(&vec![true]);
    assert_eq!(run, RetryRun { attempts: 1, total_wait: 0, succeeded: true });
}

#[test]
fn always_failing_operation_is_attempted_seven_times() {
    // More outcomes than the retrier will ever use: it gives up once the
    // doubled delay would pass 64, after waits of 1+2+4+8+16+32+64 = 127.
    let outcomes = vec![false; 20];
    let run = run_retries(&outcomes);
    assert_eq!(run, RetryRun { attempts: 7, total_wait: 127, succeeded: false });

    // An exhausted supply of outcomes counts as failure all the way, too.
    let run = run_retries(&Vec::new());
    assert_eq!(run, RetryRun { attempts: 7, total_wait: 127, succeeded: false });
}

#[test]
fn success_on_the_last_possible_attempt() {
    let mut outcomes = vec![false; 6];
    outcomes.push(true);
    let run = run_retries(&outcomes);
    assert_eq!(run, RetryRun { attempts: 7, total_wait: 63, succeeded: true });
}

#[test]
fn backoff_steps_double_then_give_up() {
    let mut backoff = Backoff::new();
    let mut waits = Vec::new();
    loop {
        let step = backoff.on_failure();
        waits.push(step.wait);
        if !step.retry {
            break;
        }
    }
    assert_eq!(waits, vec![1, 2, 4, 8, 16, 32, 64]);
}
