use backend::handlers::stocks::checked_prediction_inputs;
use backend::handlers::stocks::{
    add_stock_outcome, delete_stock_outcome, prediction_inputs, prediction_shifts_fit, select_stocks, ticker_names,
};
use backend::auth::extractor::SessionContext;
use backend::state::{default_tickers, Sessions};
use backend::stocks_register::{StockRecord, StocksRegister};

fn record(ticker: &str, timestamps: Vec<i64>, close: Vec<f64>) -> StockRecord<f64> {
    StockRecord {
        ticker: ticker.to_string(),
        open_prices: close.clone(),
        high_prices: close.clone(),
        low_prices: close.clone(),
        close_prices: close,
        timestamps,
    }
}

fn user_session() -> SessionContext {
    SessionContext { session_id: "u-1".to_string(), user_id: Some("u-1".to_string()) }
}

fn guest_session() -> SessionContext {
    SessionContext { session_id: "guest-9".to_string(), user_id: None }
}

#[test]
fn recorded_quotes_are_found_by_any_spelling_of_the_ticker() {
    let mut register: StocksRegister<f64> = StocksRegister::new();
    register.record_quotes("aapl", vec![1, 2], vec![1.5, 2.5], vec![1.0, 2.0], vec![2.0, 3.0], vec![0.5, 1.5]);
    let found = register.get("AAPL").expect("stored under its upper-case form");
    assert_eq!(found.ticker, "AAPL");
    assert_eq!(found.timestamps, vec![1, 2]);
    assert_eq!(found.close_prices, vec![1.5, 2.5]);
    assert_eq!(found.open_prices, vec![1.0, 2.0]);
    assert!(register.get("Aapl").is_some());
    assert!(register.get("aapl").is_some());
    assert!(register.get("MSFT").is_none());
    assert_eq!(register.tickers(), vec!["AAPL".to_string()]);
}

#[test]
fn recording_again_replaces_the_series() {
    let mut register: StocksRegister<f64> = StocksRegister::new();
    register.record_quotes("msft", vec![1], vec![1.0], vec![1.0], vec![1.0], vec![1.0]);
    register.record_quotes("MSFT", vec![5, 6], vec![9.0, 8.0], vec![9.0, 8.0], vec![9.0, 8.0], vec![9.0, 8.0]);
    assert_eq!(register.len(), 1);
    assert_eq!(register.get("msft").unwrap().timestamps, vec![5, 6]);
}

#[test]
fn removing_a_ticker_forgets_every_spelling_of_it() {
    let mut register: StocksRegister<f64> = StocksRegister::new();
    register.record_quotes("AAPL", vec![1], vec![1.0], vec![1.0], vec![1.0], vec![1.0]);
    register.record_quotes("GOOGL", vec![1], vec![1.0], vec![1.0], vec![1.0], vec![1.0]);
    assert!(register.remove("aapl"));
    assert!(register.get("AAPL").is_none());
    assert!(register.get("googl").is_some());
    assert!(!register.remove("AAPL"));
    assert_eq!(register.len(), 1);
}

#[test]
fn all_lists_each_record_once() {
    let mut register: StocksRegister<f64> = StocksRegister::new();
    register.insert(record("AAPL", vec![1], vec![1.0]));
    register.insert(record("TSLA", vec![2], vec![2.0]));
    register.insert(record("AAPL", vec![3], vec![3.0]));
    let all = register.all();
    assert_eq!(all.len(), 2);
    let mut tickers: Vec<String> = all.iter().map(|r| r.ticker.clone()).collect();
    tickers.sort();
    assert_eq!(tickers, vec!["AAPL".to_string(), "TSLA".to_string()]);
    assert_eq!(register.get("AAPL").unwrap().timestamps, vec![3]);
}

#[test]
fn names_are_the_tickers_with_no_name() {
    let mut register: StocksRegister<f64> = StocksRegister::new();
    register.insert(record("AAPL", vec![1], vec![1.0]));
    let names = ticker_names(&register);
    assert_eq!(names.len(), 1);
    assert_eq!(names[0].ticker, "AAPL");
    assert_eq!(names[0].full_name, "no name");
}

#[test]
fn selection_keeps_the_requested_order_and_skips_unknown_tickers() {
    let mut register: StocksRegister<f64> = StocksRegister::new();
    register.insert(record("AAPL", vec![1], vec![1.0]));
    register.insert(record("TSLA", vec![2], vec![2.0]));
    let wanted = vec!["tsla".to_string(), "NOPE".to_string(), "AAPL".to_string(), "tsla".to_string()];
    let picked = select_stocks(&register, &wanted);
    let tickers: Vec<&str> = picked.iter().map(|r| r.ticker.as_str()).collect();
    assert_eq!(tickers, vec!["TSLA", "AAPL", "TSLA"]);
}

#[test]
fn adding_a_stock_answers_and_persists_for_users_only() {
    let ok = add_stock_outcome("AAPL", None, &user_session());
    assert_eq!(ok.status, 200);
    assert_eq!(ok.message.message, "Successfully added AAPL");
    assert_eq!(ok.persist_for, Some("u-1".to_string()));

    let guest = add_stock_outcome("AAPL", None, &guest_session());
    assert_eq!(guest.status, 200);
    assert_eq!(guest.persist_for, None);

    let failed = add_stock_outcome("ZZZZ", Some("no data"), &user_session());
    assert_eq!(failed.status, 400);
    assert_eq!(failed.message.message, "Failed to add ZZZZ: no data");
    assert_eq!(failed.persist_for, None);
}

#[test]
fn deleting_a_stock_answers_by_whether_it_was_held() {
    let mut register: StocksRegister<f64> = StocksRegister::new();
    register.insert(record("AAPL", vec![1], vec![1.0]));
    let deleted = delete_stock_outcome(&mut register, "aapl", &user_session());
    assert_eq!(deleted.status, 200);
    assert_eq!(deleted.message.message, "Successfully deleted aapl");
    assert_eq!(deleted.persist_for, Some("u-1".to_string()));
    assert_eq!(register.len(), 0);

    let missing = delete_stock_outcome(&mut register, "aapl", &user_session());
    assert_eq!(missing.status, 404);
    assert_eq!(missing.message.message, "Ticker aapl not found");
    assert_eq!(missing.persist_for, None);
}

#[test]
fn prediction_inputs_refuse_a_missing_target_then_missing_features() {
    let mut register: StocksRegister<f64> = StocksRegister::new();
    register.insert(record("AAPL", vec![86400, 172800], vec![1.0, 2.0]));
    register.insert(record("MSFT", vec![86400, 172800], vec![3.0, 4.0]));

    let features = vec![("MSFT".to_string(), 1)];
    match prediction_inputs(&register, "NOPE", &features) {
        Err(o) => {
            assert_eq!(o.status, 404);
            assert_eq!(o.message.message, "Target ticker NOPE not found");
        },
        Ok(_) => panic!("a missing target is refused"),
    }

    let none = vec![("NOPE".to_string(), 1)];
    match prediction_inputs(&register, "AAPL", &none) {
        Err(o) => {
            assert_eq!(o.status, 400);
            assert_eq!(o.message.message, "No valid training tickers provided");
        },
        Ok(_) => panic!("no feature is refused"),
    }

    assert!(prediction_shifts_fit(&register, &features));
    let (target, shifted) = prediction_inputs(&register, "aapl", &features).ok().unwrap();
    assert_eq!(target.ticker, "AAPL");
    assert_eq!(shifted.len(), 1);
    assert_eq!(shifted[0].ticker, "MSFT");
    assert_eq!(shifted[0].timestamps, vec![0, 86400]);
    assert_eq!(shifted[0].close_prices, vec![3.0, 4.0]);
    assert_eq!(register.get("MSFT").unwrap().timestamps, vec![86400, 172800]);
}

#[test]
fn shifts_that_leave_i64_are_detected() {
    let mut register: StocksRegister<f64> = StocksRegister::new();
    register.insert(record("LOW", vec![i64::MIN + 10], vec![1.0]));
    assert!(!prediction_shifts_fit(&register, &vec![("LOW".to_string(), 1)]));
    assert!(prediction_shifts_fit(&register, &vec![("LOW".to_string(), 0)]));
    assert!(prediction_shifts_fit(&register, &vec![("OTHER".to_string(), 1)]));
}

#[test]
fn a_new_session_is_created_once_and_handed_over_on_registration() {
    let mut sessions: Sessions<u32> = Sessions::new();
    let guest = "guest-1".to_string();
    assert!(sessions.get_or_insert(&guest, 7));
    assert!(!sessions.get_or_insert(&guest, 8));
    assert_eq!(sessions.get(&guest), Some(&7));

    assert!(sessions.hand_over(&guest, "user-1".to_string()));
    assert_eq!(sessions.get(&"user-1".to_string()), Some(&7));
    assert_eq!(sessions.get(&guest), None);
    assert!(!sessions.hand_over(&guest, "user-2".to_string()));
    assert_eq!(sessions.get(&"user-2".to_string()), None);

    assert_eq!(sessions.remove(&"user-1".to_string()), Some(7));
    assert_eq!(sessions.remove(&"user-1".to_string()), None);
}

#[test]
fn new_sessions_are_seeded_with_seven_daily_tickers() {
    let defaults = default_tickers();
    let symbols: Vec<&str> = defaults.iter().map(|d| d.symbol.as_str()).collect();
    assert_eq!(symbols, vec!["AAPL", "TSLA", "AMZN", "NVDA", "META", "MSFT", "GOOGL"]);
    assert!(defaults.iter().all(|d| d.interval == "1d" && d.range == "3mo"));
}

#[test]
fn two_new_sessions_keep_their_own_registers() {
    let mut sessions: Sessions<StocksRegister<f64>> = Sessions::new();
    let a = "session-a".to_string();
    let b = "session-b".to_string();
    assert!(sessions.get_or_insert(&a, StocksRegister::new()));
    assert!(sessions.get_or_insert(&b, StocksRegister::new()));
    let mut reg_a = sessions.remove(&a).unwrap();
    reg_a.insert(record("AAPL", vec![1], vec![1.0]));
    sessions.get_or_insert(&a, reg_a);
    assert!(sessions.get(&a).unwrap().get("AAPL").is_some());
    assert!(sessions.get(&b).unwrap().get("AAPL").is_none());
}

#[test]
fn an_inserted_record_is_kept_under_its_upper_case_ticker() {
    let mut register: StocksRegister<f64> = StocksRegister::new();
    assert!(!register.insert(record("aapl", vec![1], vec![1.0])));
    assert!(register.get("AAPL").is_some());
    assert_eq!(register.get("Aapl").unwrap().ticker, "aapl");
    assert!(register.insert(record("AAPL", vec![2], vec![2.0])));
    assert_eq!(register.len(), 1);
    assert_eq!(register.tickers(), vec!["AAPL".to_string()]);
}

#[test]
fn checked_inputs_report_an_overflowing_shift() {
        let mut register: StocksRegister<f64> = StocksRegister::new();
    register.insert(record("AAPL", vec![1], vec![1.0]));
    register.insert(record("LOW", vec![i64::MIN + 10], vec![1.0]));
    let features = vec![("LOW".to_string(), 1)];
    assert!(checked_prediction_inputs(&register, "AAPL", &features).is_none());
    match checked_prediction_inputs(&register, "NOPE", &features) {
        Some(Err(o)) => assert_eq!(o.status, 404),
        _ => panic!("a missing target is refused before any shift"),
    }
    let fine = vec![("LOW".to_string(), 0)];
    assert!(matches!(checked_prediction_inputs(&register, "AAPL", &fine), Some(Ok(_))));
}
