use price_poller::fetch::FetchError;
use price_poller::poll::{Action, Directive, Event, Failure, Poller};
use price_poller::quote::Quote;
use price_poller::record::RecordError;

fn quote(price: &str) -> Quote {
    Quote { instrument: "x".to_string(), price: price.to_string() }
}

fn fetched(price: &str) -> Event {
    Event::Fetched(Ok(quote(price)))
}

fn plain(action: Action) -> Directive {
    Directive { report: None, action }
}

/// Drives the poller as a caller would, with the pause taking no time: each
/// fetch answers with `answer(cycle, instrument)`, each append goes to an
/// in-memory log.
fn drive(
    count: usize,
    cycles: usize,
    answer: impl Fn(usize, usize) -> Result<Quote, FetchError>,
) -> (Vec<String>, Vec<usize>, Vec<Failure>) {
    let mut poller = Poller::new(count);
    let mut logs = vec![String::new(); count];
    let mut tokens = vec![0usize; count];
    let mut reports = Vec::new();
    let mut action = poller.action();
    let mut cycle = 0;
    while cycle < cycles {
        let event = match action {
            Action::Fetch(i) => Event::Fetched(answer(cycle, i)),
            Action::Record(i, text) => {
                logs[i].push_str(&text);
                tokens[i] += 1;
                Event::Recorded(Ok(()))
            }
            Action::Sleep => {
                cycle += 1;
                Event::Woke
            }
        };
        let d = poller.handle(event);
        if let Some(f) = d.report {
            reports.push(f);
        }
        action = d.action;
    }
    (logs, tokens, reports)
}

#[test]
fn new_poller_fetches_first_instrument() {
    assert_eq!(Poller::new(3).action(), Action::Fetch(0));
}

#[test]
fn poller_without_instruments_only_sleeps() {
    let mut p = Poller::new(0);
    assert_eq!(p.action(), Action::Sleep);
    assert_eq!(p.handle(Event::Woke), plain(Action::Sleep));
}

#[test]
fn status_500_is_reported_and_nothing_is_recorded() {
    let mut p = Poller::new(3);
    let d = p.handle(Event::Fetched(Err(FetchError::UnexpectedStatus(500))));
    assert_eq!(
        d,
        Directive {
            report: Some(Failure::Fetch(FetchError::UnexpectedStatus(500))),
            action: Action::Fetch(1),
        }
    );
}

#[test]
fn failed_fetch_does_not_stop_the_cycle() {
    let mut p = Poller::new(2);
    let d = p.handle(Event::Fetched(Err(FetchError::Network("connection refused".to_string()))));
    assert_eq!(d.report, Some(Failure::Fetch(FetchError::Network("connection refused".to_string()))));
    assert_eq!(d.action, Action::Fetch(1));
    assert_eq!(p.handle(fetched("3001.5")), plain(Action::Record(1, "3001.5".to_string())));
    assert_eq!(p.handle(Event::Recorded(Ok(()))), plain(Action::Sleep));
    assert_eq!(p.handle(Event::Woke), plain(Action::Fetch(0)));
}

#[test]
fn failed_append_is_reported_and_the_cycle_goes_on() {
    let mut p = Poller::new(2);
    assert_eq!(p.handle(fetched("1")), plain(Action::Record(0, "1".to_string())));
    let e = RecordError::IoFailure("disk full".to_string());
    let d = p.handle(Event::Recorded(Err(e.clone())));
    assert_eq!(d, Directive { report: Some(Failure::Record(e)), action: Action::Fetch(1) });
}

#[test]
fn last_instrument_is_followed_by_sleep() {
    let mut p = Poller::new(1);
    assert_eq!(p.handle(fetched("9")), plain(Action::Record(0, "9".to_string())));
    assert_eq!(p.handle(Event::Recorded(Ok(()))), plain(Action::Sleep));
}

#[test]
fn event_out_of_phase_changes_nothing() {
    let mut p = Poller::new(2);
    assert_eq!(p.handle(Event::Recorded(Ok(()))), plain(Action::Fetch(0)));
    assert_eq!(p.handle(Event::Woke), plain(Action::Fetch(0)));
    assert_eq!(p.handle(fetched("5")), plain(Action::Record(0, "5".to_string())));
    assert_eq!(p.handle(fetched("6")), plain(Action::Record(0, "5".to_string())));
}

#[test]
fn one_failing_instrument_leaves_the_others_logs_filled() {
    let (logs, tokens, reports) = drive(2, 2, |cycle, i| {
        if i == 0 {
            Err(FetchError::Network("down".to_string()))
        } else {
            Ok(quote(&format!("{}", 10 + cycle)))
        }
    });
    assert_eq!(logs, vec!["".to_string(), "1011".to_string()]);
    assert_eq!(tokens, vec![0, 2]);
    assert_eq!(reports.len(), 2);
}

#[test]
fn n_cycles_append_n_prices_to_each_log() {
    let (logs, tokens, reports) = drive(3, 4, |cycle, i| Ok(quote(&format!("{}.{}", i, cycle))));
    assert_eq!(tokens, vec![4, 4, 4]);
    assert_eq!(logs[0], "0.00.10.20.3");
    assert_eq!(logs[2], "2.02.12.22.3");
    assert!(reports.is_empty());
}
