//! The matrix-multiplication scenario: iteration `i` posts the fixture
//! matrices `i` and `i + 1` and the response must reproduce, value for
//! value, the product that was precomputed before the timed window began.
//!
//! Matrix entries travel as raw 64-bit patterns, so equality here is exact
//! bit equality; producing the numeric fixtures themselves is the caller's
//! work, outside the timed window.

use vstd::prelude::*;
use vstd::string::StringExecFns;

use crate::decimal::{dec_chars, usize_to_string};
use crate::results::{BenchmarkOkResult, BenchmarkResult, ResultModel};
use crate::runner::{
    Benchmark, BodyModel, MatrixPayload, PayloadModel, RequestModel, RequestSpec, ResponseBody,
    ResponseData, ResponseModel, matrix_view,
};

verus! {

/// Row count every result matrix must have.
pub const ROWS: usize = 101;

/// Column count every result matrix must have.
pub const COLUMNS: usize = 101;

/// The message reported when the response was not decodable.
pub open spec fn invalid_json_message(err: Seq<char>) -> Seq<char> {
    "Invalid JSON: "@ + err
}

/// The message reported when the result has the wrong number of rows.
pub open spec fn wrong_rows_message(found: int) -> Seq<char> {
    "Expected 101 rows found "@ + dec_chars(found) + " rows"@
}

/// The message reported when one row has the wrong number of columns.
pub open spec fn wrong_columns_message(expected: int, found: int) -> Seq<char> {
    "Expected "@ + dec_chars(expected) + " columns found "@ + dec_chars(found) + " columns"@
}

/// The message reported when one entry differs from the precomputed value.
pub open spec fn wrong_value_message(row: int, column: int) -> Seq<char> {
    "Value mismatch at row "@ + dec_chars(row) + " column "@ + dec_chars(column)
}

/// The verdict of scanning one row pair from column `c` on: the first
/// differing column's message, if any.
pub open spec fn spec_check_columns(expected: Seq<u64>, found: Seq<u64>, row: int, c: int) -> Option<
    ResultModel,
>
    decreases COLUMNS - c,
{
    if c >= COLUMNS {
        None
    } else if expected[c] != found[c] {
        Some(ResultModel::InvalidResponse(wrong_value_message(row, c)))
    } else {
        spec_check_columns(expected, found, row, c + 1)
    }
}

/// The verdict of scanning a result matrix against its expected value from
/// row `r` on: the first row whose length or entries differ decides, and a
/// clean scan is a success for one iteration.
pub open spec fn spec_check_rows(
    expected: Seq<Seq<u64>>,
    found: Seq<Seq<u64>>,
    elapsed_ms: u64,
    r: int,
) -> ResultModel
    decreases ROWS - r,
{
    if r >= ROWS {
        ResultModel::Success { time_ms: elapsed_ms as int, iterations: 1 }
    } else if expected[r].len() != found[r].len() {
        ResultModel::InvalidResponse(
            wrong_columns_message(expected[r].len() as int, found[r].len() as int),
        )
    } else {
        match spec_check_columns(expected[r], found[r], r, 0) {
            Some(verdict) => verdict,
            None => spec_check_rows(expected, found, elapsed_ms, r + 1),
        }
    }
}

/// Whether `m` is a well-formed fixture matrix: exactly the expected row
/// and column counts.
pub open spec fn matrix_wf(m: Seq<Seq<u64>>) -> bool {
    m.len() == ROWS && forall|r: int| 0 <= r < m.len() ==> (#[trigger] m[r]).len() == COLUMNS
}

/// The matrix-multiplication scenario: one input matrix per iteration plus
/// one more, and one precomputed product per iteration.
pub struct MatrixMultiplicationBenchmark {
    matrices: Vec<Vec<Vec<u64>>>,
    expected: Vec<Vec<Vec<u64>>>,
}

impl MatrixMultiplicationBenchmark {
    /// The input fixture matrices.
    pub closed spec fn matrices_view(&self) -> Seq<Seq<Seq<u64>>> {
        self.matrices@.map_values(|m: Vec<Vec<u64>>| matrix_view(m@))
    }

    /// The precomputed products, one per iteration.
    pub closed spec fn expected_view(&self) -> Seq<Seq<Seq<u64>>> {
        self.expected@.map_values(|m: Vec<Vec<u64>>| matrix_view(m@))
    }

    /// The scenario invariant: one more input matrix than iterations, and
    /// every precomputed product of the expected shape.
    pub open spec fn wf(&self) -> bool {
        &&& self.matrices_view().len() == self.expected_view().len() + 1
        &&& forall|i: int|
            0 <= i < self.expected_view().len() ==> matrix_wf(#[trigger] self.expected_view()[i])
    }

    /// Creates the scenario around fixtures the caller precomputed — the
    /// input matrices, and for each iteration the product of inputs `i` and
    /// `i + 1` — before the timed window begins.
    pub fn new(matrices: Vec<Vec<Vec<u64>>>, expected: Vec<Vec<Vec<u64>>>) -> (r: Self)
        requires
            matrices@.len() == expected@.len() + 1,
            forall|i: int|
                0 <= i < expected@.len() ==> matrix_wf(matrix_view((#[trigger] expected@[i])@)),
        ensures
            r.wf(),
            r.matrices_view() == matrices@.map_values(|m: Vec<Vec<u64>>| matrix_view(m@)),
            r.expected_view() == expected@.map_values(|m: Vec<Vec<u64>>| matrix_view(m@)),
    {
        MatrixMultiplicationBenchmark { matrices, expected }
    }
}

/// Copies a matrix of raw entries row by row.
fn clone_matrix(m: &Vec<Vec<u64>>) -> (r: Vec<Vec<u64>>)
    ensures
        matrix_view(r@) == matrix_view(m@),
{
    let mut rows: Vec<Vec<u64>> = Vec::new();
    let n = m.len();
    let mut i: usize = 0;
    while i < n
        invariant
            i <= n,
            n == m@.len(),
            rows@.len() == i,
            forall|j: int| 0 <= j < i ==> (#[trigger] rows@[j])@ == (m@[j])@,
        decreases n - i,
    {
        let src = &m[i];
        let mut row: Vec<u64> = Vec::new();
        let width = src.len();
        let mut k: usize = 0;
        while k < width
            invariant
                k <= width,
                width == src@.len(),
                row@ == src@.subrange(0, k as int),
            decreases width - k,
        {
            row.push(src[k]);
            proof {
                assert(row@ =~= src@.subrange(0, k as int + 1));
            }
            k = k + 1;
        }
        proof {
            assert(row@ =~= src@);
        }
        rows.push(row);
        i = i + 1;
    }
    proof {
        assert(matrix_view(rows@) =~= matrix_view(m@));
    }
    rows
}

impl Benchmark for MatrixMultiplicationBenchmark {
    open spec fn valid_iteration(&self, iteration: int) -> bool {
        &&& self.wf()
        &&& 0 <= iteration < self.expected_view().len()
    }

    open spec fn expects(&self, response: ResponseModel) -> bool {
        response.body is Matrix
    }

    open spec fn spec_request(&self, iteration: int) -> RequestModel {
        RequestModel::PostMatrixPair {
            url: "http://web:8000/benchmark/matrix-multiplication"@,
            matrix1: self.matrices_view()[iteration],
            matrix2: self.matrices_view()[iteration + 1],
        }
    }

    open spec fn spec_check(&self, iteration: int, elapsed_ms: u64, response: ResponseModel) -> ResultModel {
        match response.body {
            BodyModel::Matrix(PayloadModel::Malformed(err)) => ResultModel::InvalidResponse(
                invalid_json_message(err),
            ),
            BodyModel::Matrix(PayloadModel::Parsed(found)) => if found.len() != ROWS {
                ResultModel::InvalidResponse(wrong_rows_message(found.len() as int))
            } else {
                spec_check_rows(self.expected_view()[iteration], found, elapsed_ms, 0)
            },
            _ => arbitrary(),
        }
    }

    fn make_request(&self, iteration: usize) -> (r: RequestSpec) {
        let count = self.matrices.len();
        proof {
            assert(iteration + 1 < count);
        }
        let matrix1 = clone_matrix(&self.matrices[iteration]);
        let matrix2 = clone_matrix(&self.matrices[iteration + 1]);
        RequestSpec::PostMatrixPair {
            url: String::from_str("http://web:8000/benchmark/matrix-multiplication"),
            matrix1,
            matrix2,
        }
    }

    #[verifier::loop_isolation(false)]
    fn check_response(&self, iteration: usize, elapsed_ms: u64, response: ResponseData) -> (r:
        BenchmarkResult) {
        let payload = match response.body {
            ResponseBody::Matrix(p) => p,
            _ => {
                // Excluded by `expects`: this scenario is only handed the
                // body shape its own request asked for.
                proof {
                    assert(false);
                }
                MatrixPayload::Malformed(String::new())
            },
        };
        let found = match payload {
            MatrixPayload::Parsed(m) => m,
            MatrixPayload::Malformed(err) => {
                let msg = String::from_str("Invalid JSON: ").concat(err.as_str());
                return BenchmarkResult::InvalidResponse(msg);
            },
        };
        if found.len() != ROWS {
            let msg = String::from_str("Expected 101 rows found ").concat(
                usize_to_string(found.len()).as_str(),
            ).concat(" rows");
            return BenchmarkResult::InvalidResponse(msg);
        }
        let ghost expected_m = self.expected_view()[iteration as int];
        let ghost found_m = matrix_view(found@);
        let expected = &self.expected[iteration];
        let mut row: usize = 0;
        while row < ROWS
            invariant
                row <= ROWS,
                spec_check_rows(expected_m, found_m, elapsed_ms, 0) == spec_check_rows(
                    expected_m,
                    found_m,
                    elapsed_ms,
                    row as int,
                ),
            decreases ROWS - row,
        {
            let expected_row = &expected[row];
            let found_row = &found[row];
            if expected_row.len() != found_row.len() {
                let msg = String::from_str("Expected ").concat(
                    usize_to_string(expected_row.len()).as_str(),
                ).concat(" columns found ").concat(usize_to_string(found_row.len()).as_str()).concat(
                    " columns",
                );
                return BenchmarkResult::InvalidResponse(msg);
            }
            let mut column: usize = 0;
            while column < COLUMNS
                invariant
                    column <= COLUMNS,
                    row < ROWS,
                    expected_row@ == expected_m[row as int],
                    found_row@ == found_m[row as int],
                    expected_row@.len() == found_row@.len() == COLUMNS,
                    spec_check_columns(expected_m[row as int], found_m[row as int], row as int, 0)
                        == spec_check_columns(
                        expected_m[row as int],
                        found_m[row as int],
                        row as int,
                        column as int,
                    ),
                decreases COLUMNS - column,
            {
                if expected_row[column] != found_row[column] {
                    let msg = String::from_str("Value mismatch at row ").concat(
                        usize_to_string(row).as_str(),
                    ).concat(" column ").concat(usize_to_string(column).as_str());
                    return BenchmarkResult::InvalidResponse(msg);
                }
                column = column + 1;
            }
            row = row + 1;
        }
        BenchmarkResult::Success(BenchmarkOkResult { time_ms: elapsed_ms, iterations: 1 })
    }
}

/// A correctly behaving target is recognised exactly: with fixtures of the
/// expected shape and a decoded result of the expected row count, the
/// verdict is a success precisely when the result equals the precomputed
/// product value for value — byte-for-byte equality of every entry, never
/// approximate.
pub proof fn lemma_check_exact(expected: Seq<Seq<u64>>, found: Seq<Seq<u64>>, elapsed_ms: u64)
    requires
        matrix_wf(expected),
        found.len() == ROWS,
    ensures
        spec_check_rows(expected, found, elapsed_ms, 0) is Success <==> expected == found,
{
    lemma_check_rows_exact(expected, found, elapsed_ms, 0);
    if spec_check_rows(expected, found, elapsed_ms, 0) is Success {
        assert(expected =~= found);
    }
    if expected == found {
        assert(forall|i: int| 0 <= i < ROWS ==> expected[i] == found[i]);
    }
}

/// Helper induction for [`lemma_check_exact`], over the rows from `r` on.
proof fn lemma_check_rows_exact(
    expected: Seq<Seq<u64>>,
    found: Seq<Seq<u64>>,
    elapsed_ms: u64,
    r: int,
)
    requires
        matrix_wf(expected),
        found.len() == ROWS,
        0 <= r,
    ensures
        spec_check_rows(expected, found, elapsed_ms, r) is Success <==> (forall|i: int|
            r <= i < ROWS ==> expected[i] == found[i]),
    decreases ROWS - r,
{
    if r < ROWS {
        lemma_check_rows_exact(expected, found, elapsed_ms, r + 1);
        if expected[r].len() == found[r].len() {
            lemma_check_columns_exact(expected[r], found[r], r, 0);
            if spec_check_columns(expected[r], found[r], r, 0) is None {
                assert(expected[r] =~= found[r]);
            } else {
                let j = choose|j: int|
                    0 <= j < COLUMNS && !(#[trigger] expected[r][j] == found[r][j]);
                assert(expected[r][j] != found[r][j]);
                assert(expected[r] != found[r]);
            }
        } else {
            assert(expected[r] != found[r]);
        }
        if spec_check_rows(expected, found, elapsed_ms, r) is Success {
            assert(expected[r].len() == found[r].len());
            assert(spec_check_columns(expected[r], found[r], r, 0) is None);
            assert(expected[r] == found[r]);
            assert(forall|i: int| r <= i < ROWS ==> expected[i] == found[i]) by {
                assert(forall|i: int| r + 1 <= i < ROWS ==> expected[i] == found[i]);
            }
        } else {
            if expected[r] == found[r] {
                assert(!(forall|i: int| r + 1 <= i < ROWS ==> expected[i] == found[i]));
            }
            assert(!(forall|i: int| r <= i < ROWS ==> expected[i] == found[i]));
        }
    }
}

/// Helper induction over the columns of one row from `c` on: a clean column
/// scan means the rows agree on every remaining column.
proof fn lemma_check_columns_exact(expected: Seq<u64>, found: Seq<u64>, row: int, c: int)
    requires
        0 <= c,
    ensures
        spec_check_columns(expected, found, row, c) is None <==> (forall|j: int|
            c <= j < COLUMNS ==> expected[j] == found[j]),
        spec_check_columns(expected, found, row, c) matches Some(v) ==> v is InvalidResponse,
    decreases COLUMNS - c,
{
    if c < COLUMNS {
        lemma_check_columns_exact(expected, found, row, c + 1);
    }
}

} // verus!
