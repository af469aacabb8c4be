use std::collections::BTreeMap;

use exchange_rate::info::Info;
use exchange_rate::orchestrator::{Action, Event, Orchestrator};
use exchange_rate::store::FetchError;
use rustc_serialize::json::{self, Json};

fn write(table: &[Info]) -> String {
    let entries: Vec<Json> = table
        .iter()
        .map(|info| {
            let mut object = BTreeMap::new();
            object.insert("current_name".to_string(), Json::String(info.current_name.clone()));
            object.insert("rate".to_string(), Json::F64(f64::from_bits(info.rate)));
            Json::Object(object)
        })
        .collect();
    json::encode(&Json::Array(entries)).unwrap()
}

fn read(text: &str) -> Option<Vec<Info>> {
    let parsed = Json::from_str(text).ok()?;
    let mut table = Vec::new();
    for entry in parsed.as_array()? {
        let name = entry.find("current_name")?.as_string()?;
        let rate = entry.find("rate")?.as_f64()?;
        table.push(Info::new(name, rate.to_bits()));
    }
    Some(table)
}

#[test]
fn cache_text_of_one_entry() {
    let table = vec![Info::new("USD", 7.0f64.to_bits())];
    assert_eq!(write(&table), "[{\"current_name\":\"USD\",\"rate\":7.0}]");
}

#[test]
fn cache_text_of_an_empty_table() {
    assert_eq!(write(&[]), "[]");
    assert_eq!(read("[]"), Some(Vec::new()));
}

#[test]
fn cache_round_trip_keeps_names_rates_and_order() {
    let table = vec![
        Info::new("美元", 7.25f64.to_bits()),
        Info::new("EUR", 8.0f64.to_bits()),
        Info::new("JPY", 0.0625f64.to_bits()),
        Info::new("USD", 7.0f64.to_bits()),
    ];
    assert_eq!(read(&write(&table)), Some(table));
}

#[test]
fn finalized_snapshot_is_what_the_cache_gets() {
    let mut run = Orchestrator::new();
    run.step(Event::CacheLoaded(read("[{\"current_name\":\"EUR\",\"rate\":8.0}]").ok_or(
        exchange_rate::store::CacheError::Parse,
    )));
    run.step(Event::AmountEntered(50.0f64.to_bits()));
    match run.step(Event::FetchFinished(Err(FetchError::Network))) {
        Action::Finalize { snapshot, .. } => {
            assert_eq!(write(&snapshot), "[{\"current_name\":\"EUR\",\"rate\":8.0}]");
        }
        other => panic!("not finalized: {:?}", other),
    }
}
