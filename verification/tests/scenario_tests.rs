use exchange_rate::info::Info;
use exchange_rate::orchestrator::{Action, Event, Orchestrator};
use exchange_rate::report::{calculate, Figures};
use exchange_rate::store::{CacheError, FetchError};

fn figures(amount: u64, rate: u64) -> Figures {
    let money = f64::from_bits(amount);
    let rate = f64::from_bits(rate);
    Figures {
        amount: money.to_string(),
        quotient: (money / rate).to_string(),
        product: (money * rate).to_string(),
    }
}

fn lines(amount: u64, snapshot: &Vec<Info>) -> Vec<String> {
    calculate(amount, snapshot, figures)
}

fn usd() -> Info {
    Info::new("USD", 7.0f64.to_bits())
}

fn eur() -> Info {
    Info::new("EUR", 8.0f64.to_bits())
}

#[test]
fn a_new_run_has_an_empty_table() {
    assert_eq!(Orchestrator::new().get_snapshot(), Vec::<Info>::new());
}

#[test]
fn empty_cache_and_successful_fetch_amount_last() {
    let mut run = Orchestrator::new();
    assert_eq!(run.step(Event::CacheLoaded(Ok(Vec::new()))), Action::Wait);
    assert_eq!(run.step(Event::FetchFinished(Ok(vec![usd()]))), Action::Wait);
    let action = run.step(Event::AmountEntered(100.0f64.to_bits()));
    assert_eq!(
        action,
        Action::Finalize { amount: 100.0f64.to_bits(), snapshot: vec![usd()], first: true }
    );
    assert_eq!(
        lines(100.0f64.to_bits(), &vec![usd()]),
        vec!["100 USD = 14.285714285714286 人民币 (CNY) ---- 100 人民币 (CNY) = 700 USD"]
    );
    assert_eq!(run.get_snapshot(), vec![usd()]);
}

#[test]
fn empty_cache_and_successful_fetch_amount_first() {
    let mut run = Orchestrator::new();
    assert_eq!(run.step(Event::CacheLoaded(Err(CacheError::Io))), Action::Wait);
    let first = run.step(Event::AmountEntered(100.0f64.to_bits()));
    assert_eq!(first, Action::Calculate { amount: 100.0f64.to_bits(), snapshot: Vec::new() });
    assert_eq!(lines(100.0f64.to_bits(), &Vec::new()), Vec::<String>::new());
    let last = run.step(Event::FetchFinished(Ok(vec![usd()])));
    assert_eq!(
        last,
        Action::Finalize { amount: 100.0f64.to_bits(), snapshot: vec![usd()], first: false }
    );
    assert_eq!(run.get_snapshot(), vec![usd()]);
}

#[test]
fn valid_cache_and_failed_fetch() {
    let mut run = Orchestrator::new();
    assert_eq!(run.step(Event::CacheLoaded(Ok(vec![eur()]))), Action::Wait);
    let first = run.step(Event::AmountEntered(50.0f64.to_bits()));
    assert_eq!(first, Action::Calculate { amount: 50.0f64.to_bits(), snapshot: vec![eur()] });
    assert_eq!(
        lines(50.0f64.to_bits(), &vec![eur()]),
        vec!["50 EUR = 6.25 人民币 (CNY) ---- 50 人民币 (CNY) = 400 EUR"]
    );
    let last = run.step(Event::FetchFinished(Err(FetchError::Network)));
    assert_eq!(
        last,
        Action::Finalize { amount: 50.0f64.to_bits(), snapshot: vec![eur()], first: false }
    );
    assert_eq!(run.get_snapshot(), vec![eur()]);
}

#[test]
fn empty_cache_and_failed_fetch() {
    let mut run = Orchestrator::new();
    assert_eq!(run.step(Event::CacheLoaded(Err(CacheError::Parse))), Action::Wait);
    let first = run.step(Event::AmountEntered(10.0f64.to_bits()));
    assert_eq!(first, Action::Calculate { amount: 10.0f64.to_bits(), snapshot: Vec::new() });
    let last = run.step(Event::FetchFinished(Err(FetchError::Network)));
    assert_eq!(
        last,
        Action::Finalize { amount: 10.0f64.to_bits(), snapshot: Vec::new(), first: false }
    );
    assert_eq!(lines(10.0f64.to_bits(), &Vec::new()), Vec::<String>::new());
    assert_eq!(run.get_snapshot(), Vec::<Info>::new());
}

#[test]
fn failed_extraction_keeps_the_cached_table() {
    let mut run = Orchestrator::new();
    run.step(Event::CacheLoaded(Ok(vec![eur()])));
    assert_eq!(run.step(Event::FetchFinished(Err(FetchError::Extraction))), Action::Wait);
    assert_eq!(run.get_snapshot(), vec![eur()]);
}

#[test]
fn fetch_before_cache_load_is_kept() {
    let mut run = Orchestrator::new();
    assert_eq!(run.step(Event::FetchFinished(Ok(vec![usd()]))), Action::Wait);
    assert_eq!(run.step(Event::CacheLoaded(Ok(vec![eur()]))), Action::Wait);
    assert_eq!(
        run.step(Event::AmountEntered(1.0f64.to_bits())),
        Action::Finalize { amount: 1.0f64.to_bits(), snapshot: vec![usd()], first: true }
    );
}

#[test]
fn fetch_after_cache_load_overwrites() {
    let mut run = Orchestrator::new();
    run.step(Event::CacheLoaded(Ok(vec![eur()])));
    run.step(Event::FetchFinished(Ok(vec![usd()])));
    assert_eq!(run.get_snapshot(), vec![usd()]);
}
