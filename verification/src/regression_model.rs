//! How the price series are lined up for the regression, and how its result
//! is put together. The prices are a type parameter: the fitting itself is
//! done outside this library.

use vstd::prelude::*;

use crate::stocks_register::StockRecord;

verus! {

/// The result of a prediction for a target ticker.
#[derive(Debug, Clone)]
pub struct PredictionResult<P> {
    pub target_ticker: String,
    pub training_data: Vec<P>,
    pub actual_test: Vec<P>,
    pub predicted_test: Vec<P>,
    pub r_squared: P,
    pub test_timestamps: Vec<i64>,
    pub train_timestamps: Vec<i64>,
}

/// The series lined up for the regression: the common length, one row per
/// time step with the close price of each feature, and the target's close
/// prices over the same steps.
#[derive(Debug)]
pub struct RegressionData<P> {
    pub min_len: usize,
    pub rows: Vec<Vec<P>>,
    pub targets: Vec<P>,
}

/// The number of time steps the regression uses: the length of the shortest
/// close series among the features and the target, or 0 without features.
pub open spec fn is_aligned_len<P>(n: int, target: StockRecord<P>, features: Seq<StockRecord<P>>) -> bool {
    if features.len() == 0 {
        n == 0
    } else {
        &&& n <= target.close_prices@.len()
        &&& forall|i: int| 0 <= i < features.len() ==> n <= #[trigger] features[i].close_prices@.len()
        &&& (n == target.close_prices@.len() || exists|i: int| 0 <= i < features.len() && n == #[trigger] features[i].close_prices@.len())
    }
}

/// The number of time steps the regression uses.
pub fn aligned_len<P>(target: &StockRecord<P>, features: &Vec<StockRecord<P>>) -> (n: usize)
    ensures
        is_aligned_len(n as int, *target, features@),
{
    if features.len() == 0 {
        return 0;
    }
    let mut m: usize = features[0].close_prices.len();
    let mut i: usize = 1;
    while i < features.len()
        invariant
            1 <= i <= features@.len(),
            forall|j: int| 0 <= j < i ==> m <= #[trigger] features@[j].close_prices@.len(),
            exists|j: int| 0 <= j < i && m == #[trigger] features@[j].close_prices@.len(),
        decreases features@.len() - i,
    {
        let l = features[i].close_prices.len();
        if l < m {
            m = l;
        }
        i = i + 1;
    }
    if target.close_prices.len() < m {
        m = target.close_prices.len();
    }
    m
}

/// The last `n` elements of a vector.
pub fn tail_of<T: Copy>(v: &Vec<T>, n: usize) -> (r: Vec<T>)
    requires
        n <= v@.len(),
    ensures
        r@ == v@.subrange(v@.len() - n, v@.len() as int),
{
    let start = v.len() - n;
    let mut r: Vec<T> = Vec::new();
    let mut i: usize = start;
    while i < v.len()
        invariant
            start == v@.len() - n,
            start <= i <= v@.len(),
            r@ == v@.subrange(start as int, i as int),
        decreases v@.len() - i,
    {
        r.push(v[i]);
        i = i + 1;
        assert(r@ =~= v@.subrange(start as int, i as int));
    }
    r
}

/// The two parts of a vector split before position `at`.
pub fn split_series<T: Copy>(v: &Vec<T>, at: usize) -> (r: (Vec<T>, Vec<T>))
    requires
        at <= v@.len(),
    ensures
        r.0@ == v@.subrange(0, at as int),
        r.1@ == v@.subrange(at as int, v@.len() as int),
{
    let mut first: Vec<T> = Vec::new();
    let mut second: Vec<T> = Vec::new();
    let mut i: usize = 0;
    while i < v.len()
        invariant
            at <= v@.len(),
            i <= v@.len(),
            i <= at ==> first@ == v@.subrange(0, i as int) && second@.len() == 0,
            i > at ==> first@ == v@.subrange(0, at as int) && second@ == v@.subrange(at as int, i as int),
        decreases v@.len() - i,
    {
        if i < at {
            first.push(v[i]);
        } else {
            second.push(v[i]);
        }
        i = i + 1;
        assert(i <= at ==> first@ =~= v@.subrange(0, i as int));
        assert(i > at ==> second@ =~= v@.subrange(at as int, i as int));
    }
    assert(v@.len() <= at ==> v@.subrange(at as int, v@.len() as int) =~= Seq::<T>::empty());
    (first, second)
}

/// Row `j` holds, for each feature `i`, the close price at step `j` of the
/// last `min_len` steps of that feature.
pub open spec fn is_feature_rows<P>(rows: Seq<Vec<P>>, features: Seq<StockRecord<P>>, min_len: int) -> bool {
    &&& rows.len() == min_len
    &&& forall|j: int| 0 <= j < min_len ==> #[trigger] rows[j]@.len() == features.len()
    &&& forall|j: int, i: int| 0 <= j < min_len && 0 <= i < features.len() ==> #[trigger] rows[j]@[i]
        == features[i].close_prices@[features[i].close_prices@.len() - min_len + j]
}

/// The feature matrix, row by row.
pub fn feature_rows<P: Copy>(features: &Vec<StockRecord<P>>, min_len: usize) -> (rows: Vec<Vec<P>>)
    requires
        forall|i: int| 0 <= i < features@.len() ==> min_len <= #[trigger] features@[i].close_prices@.len(),
    ensures
        is_feature_rows(rows@, features@, min_len as int),
{
    let mut rows: Vec<Vec<P>> = Vec::new();
    let mut j: usize = 0;
    while j < min_len
        invariant
            forall|i: int| 0 <= i < features@.len() ==> min_len <= #[trigger] features@[i].close_prices@.len(),
            j <= min_len,
            rows@.len() == j,
            forall|a: int| 0 <= a < j ==> #[trigger] rows@[a]@.len() == features@.len(),
            forall|a: int, i: int| 0 <= a < j && 0 <= i < features@.len() ==> #[trigger] rows@[a]@[i]
                == features@[i].close_prices@[features@[i].close_prices@.len() - min_len + a],
        decreases min_len - j,
    {
        let mut row: Vec<P> = Vec::new();
        let mut i: usize = 0;
        while i < features.len()
            invariant
                forall|k: int| 0 <= k < features@.len() ==> min_len <= #[trigger] features@[k].close_prices@.len(),
                j < min_len,
                i <= features@.len(),
                row@.len() == i,
                forall|k: int| 0 <= k < i ==> #[trigger] row@[k]
                    == features@[k].close_prices@[features@[k].close_prices@.len() - min_len + j],
            decreases features@.len() - i,
        {
            let series = &features[i].close_prices;
            let idx = series.len() - min_len + j;
            row.push(series[idx]);
            i = i + 1;
        }
        rows.push(row);
        j = j + 1;
    }
    rows
}

/// Lines up the target and the features for the regression.
pub fn regression_inputs<P: Copy>(target: &StockRecord<P>, features: &Vec<StockRecord<P>>) -> (d: RegressionData<P>)
    ensures
        is_aligned_len(d.min_len as int, *target, features@),
        is_feature_rows(d.rows@, features@, d.min_len as int),
        d.targets@ == target.close_prices@.subrange(
            target.close_prices@.len() - d.min_len,
            target.close_prices@.len() as int,
        ),
{
    let min_len = aligned_len(target, features);
    let rows = feature_rows(features, min_len);
    let targets = tail_of(&target.close_prices, min_len);
    RegressionData { min_len, rows, targets }
}

/// Puts the result together: the target's values before `train_len` are the
/// training data and those after it the actual test values; the target's
/// timestamps are split at the same position.
pub fn assemble_prediction<P: Copy>(
    target: &StockRecord<P>,
    targets: &Vec<P>,
    train_len: usize,
    predicted_test: Vec<P>,
    r_squared: P,
) -> (r: PredictionResult<P>)
    requires
        train_len <= targets@.len(),
        train_len <= target.timestamps@.len(),
    ensures
        r.target_ticker == target.ticker,
        r.training_data@ == targets@.subrange(0, train_len as int),
        r.actual_test@ == targets@.subrange(train_len as int, targets@.len() as int),
        r.predicted_test == predicted_test,
        r.r_squared == r_squared,
        r.train_timestamps@ == target.timestamps@.subrange(0, train_len as int),
        r.test_timestamps@ == target.timestamps@.subrange(train_len as int, target.timestamps@.len() as int),
{
    let (training_data, actual_test) = split_series(targets, train_len);
    let (train_timestamps, test_timestamps) = split_series(&target.timestamps, train_len);
    PredictionResult {
        target_ticker: target.ticker.clone(),
        training_data,
        actual_test,
        predicted_test,
        r_squared,
        test_timestamps,
        train_timestamps,
    }
}

} // verus!
