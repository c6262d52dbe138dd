use backend::regression_model::{
    aligned_len, assemble_prediction, feature_rows, regression_inputs, split_series, tail_of,
};
use backend::stocks_register::StockRecord;

fn series(ticker: &str, close: Vec<f64>) -> StockRecord<f64> {
    let n = close.len() as i64;
    StockRecord {
        ticker: ticker.to_string(),
        timestamps: (0..n).map(|i| 100 + i).collect(),
        open_prices: close.clone(),
        high_prices: close.clone(),
        low_prices: close.clone(),
        close_prices: close,
    }
}

#[test]
fn the_common_length_is_the_shortest_series() {
    let target = series("T", vec![1.0, 2.0, 3.0, 4.0, 5.0]);
    let features = vec![series("A", vec![1.0, 2.0, 3.0, 4.0]), series("B", vec![9.0, 8.0, 7.0])];
    assert_eq!(aligned_len(&target, &features), 3);
    assert_eq!(aligned_len(&target, &vec![]), 0);
    let short_target = series("T", vec![1.0, 2.0]);
    assert_eq!(aligned_len(&short_target, &features), 2);
}

#[test]
fn rows_take_the_last_steps_of_each_feature() {
    let features = vec![series("A", vec![1.0, 2.0, 3.0, 4.0]), series("B", vec![9.0, 8.0, 7.0])];
    let rows = feature_rows(&features, 3);
    assert_eq!(rows, vec![vec![2.0, 9.0], vec![3.0, 8.0], vec![4.0, 7.0]]);

    let target = series("T", vec![1.0, 2.0, 3.0, 4.0, 5.0]);
    let data = regression_inputs(&target, &features);
    assert_eq!(data.min_len, 3);
    assert_eq!(data.targets, vec![3.0, 4.0, 5.0]);
    assert_eq!(data.rows, rows);
}

#[test]
fn series_are_split_at_the_training_length() {
    assert_eq!(tail_of(&vec![1, 2, 3, 4], 2), vec![3, 4]);
    assert_eq!(split_series(&vec![1, 2, 3, 4], 1), (vec![1], vec![2, 3, 4]));
    assert_eq!(split_series(&vec![1, 2], 2), (vec![1, 2], vec![]));

    let target = series("T", vec![1.0, 2.0, 3.0, 4.0, 5.0]);
    let result = assemble_prediction(&target, &vec![3.0, 4.0, 5.0], 2, vec![4.9], 0.5);
    assert_eq!(result.target_ticker, "T");
    assert_eq!(result.training_data, vec![3.0, 4.0]);
    assert_eq!(result.actual_test, vec![5.0]);
    assert_eq!(result.predicted_test, vec![4.9]);
    assert_eq!(result.r_squared, 0.5);
    assert_eq!(result.train_timestamps, vec![100, 101]);
    assert_eq!(result.test_timestamps, vec![102, 103, 104]);
}
